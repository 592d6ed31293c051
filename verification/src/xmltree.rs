//! A plain element tree, built from the pull events of the XML
//! reader. The builder is verified against `doc_of`, the tree defined
//! by recursion over the named tokenizer steps, so the whole path
//! from text to tree is pinned up to those names.
use crate::error::{FormatError, FormatErrorV};
use crate::xmlio;
use crate::xmlio::{attrs_at, token_at};
use vstd::prelude::*;

verus! {

/// One attribute of an element.
pub struct XmlAttr {
    pub name: String,
    pub value: String,
}

/// One element: its tag name, attributes, element children, and the
/// concatenation of all character data directly inside it.
pub struct XmlNode {
    pub name: String,
    pub attrs: Vec<XmlAttr>,
    pub children: Vec<XmlNode>,
    pub text: String,
}

/// The mathematical shadow of `XmlAttr`.
pub ghost struct XmlAttrV {
    pub name: Seq<char>,
    pub value: Seq<char>,
}

/// The mathematical shadow of `XmlNode`.
pub ghost struct XmlNodeV {
    pub name: Seq<char>,
    pub attrs: Seq<XmlAttrV>,
    pub children: Seq<XmlNodeV>,
    pub text: Seq<char>,
}

impl View for XmlAttr {
    type V = XmlAttrV;

    open spec fn view(&self) -> XmlAttrV {
        XmlAttrV { name: self.name@, value: self.value@ }
    }
}

impl DeepView for XmlAttr {
    type V = XmlAttrV;

    open spec fn deep_view(&self) -> XmlAttrV {
        self.view()
    }
}

/// The shadow of a node, child-first.
pub open spec fn node_view(n: XmlNode) -> XmlNodeV
    decreases n,
{
    XmlNodeV {
        name: n.name@,
        attrs: n.attrs.deep_view(),
        children: forest_view(n.children@),
        text: n.text@,
    }
}

/// The shadows of a sequence of nodes.
pub open spec fn forest_view(s: Seq<XmlNode>) -> Seq<XmlNodeV>
    decreases s,
{
    if s.len() == 0 {
        Seq::empty()
    } else {
        seq![node_view(s[0])] + forest_view(s.drop_first())
    }
}

/// `forest_view` is the element-wise image of `node_view`.
pub broadcast proof fn lemma_forest_view(s: Seq<XmlNode>)
    ensures
        (#[trigger] forest_view(s)).len() == s.len(),
        forall|i: int| 0 <= i < s.len() ==> forest_view(s)[i] == node_view(s[i]),
    decreases s,
{
    if s.len() > 0 {
        lemma_forest_view(s.drop_first());
    }
}

impl View for XmlNode {
    type V = XmlNodeV;

    open spec fn view(&self) -> XmlNodeV {
        node_view(*self)
    }
}

impl DeepView for XmlNode {
    type V = XmlNodeV;

    open spec fn deep_view(&self) -> XmlNodeV {
        self.view()
    }
}

/// Relies on char::from_u32 of std: Some exactly for a valid Unicode
/// scalar value, whose code point is then the argument.
#[verifier::external_body]
fn char_from_u32(v: u32) -> (r: Option<char>)
    ensures
        r is Some <==> (v < 0xD800 || (0xDFFF < v && v <= 0x10FFFF)),
        r is Some ==> r->0 as u32 == v,
{
    char::from_u32(v)
}

/// Relies on String::push of std: appends one character.
#[verifier::external_body]
fn push_char(s: &mut String, c: char)
    ensures
        final(s)@ == old(s)@.push(c),
{
    s.push(c);
}

/// The code point a general reference with the given name denotes:
/// the five predefined entities, or a decimal or hexadecimal character
/// reference in the valid scalar range; None when the name denotes
/// nothing.
pub open spec fn ref_code(name: Seq<char>) -> Option<u32> {
    if name == "amp"@ {
        Some(38u32)
    } else if name == "lt"@ {
        Some(60u32)
    } else if name == "gt"@ {
        Some(62u32)
    } else if name == "apos"@ {
        Some(39u32)
    } else if name == "quot"@ {
        Some(34u32)
    } else if name.len() > 2 && name[0] == '#' && (name[1] == 'x' || name[1] == 'X') {
        match crate::strutil::parse_hex_u32_spec(name.subrange(2, name.len() as int)) {
            Some(v) => if v < 0xD800 || (0xDFFF < v && v <= 0x10FFFF) {
                Some(v)
            } else {
                None
            },
            None => None,
        }
    } else if name.len() > 1 && name[0] == '#' {
        match crate::strutil::parse_usize_spec(name.drop_first()) {
            Some(v) => if v < 0xD800 || (0xDFFF < v && v <= 0x10FFFF) {
                Some(v as u32)
            } else {
                None
            },
            None => None,
        }
    } else {
        None
    }
}

/// Resolves a general reference name to the character it denotes.
pub fn resolve_reference(name: &str) -> (r: Option<char>)
    ensures
        r is Some <==> ref_code(name@) is Some,
        r is Some ==> r->0 as u32 == ref_code(name@)->0,
{
    proof {
        reveal_strlit("amp");
        reveal_strlit("lt");
        reveal_strlit("gt");
        reveal_strlit("apos");
        reveal_strlit("quot");
    }
    if crate::strutil::str_eq(name, "amp") {
        return Some('&');
    }
    if crate::strutil::str_eq(name, "lt") {
        return Some('<');
    }
    if crate::strutil::str_eq(name, "gt") {
        return Some('>');
    }
    if crate::strutil::str_eq(name, "apos") {
        return Some('\'');
    }
    if crate::strutil::str_eq(name, "quot") {
        return Some('"');
    }
    let n = name.unicode_len();
    if n < 2 {
        return None;
    }
    let c0 = name.get_char(0);
    if c0 != '#' {
        return None;
    }
    let c1 = name.get_char(1);
    if n > 2 && (c1 == 'x' || c1 == 'X') {
        let digits = name.substring_char(2, n);
        proof {
            assert(digits@ =~= name@.subrange(2, n as int));
        }
        match crate::strutil::parse_hex_u32(digits) {
            Some(v) => char_from_u32(v),
            None => None,
        }
    } else {
        let digits = name.substring_char(1, n);
        proof {
            assert(digits@ =~= name@.drop_first());
        }
        match crate::strutil::parse_usize(digits) {
            Some(v) => {
                if v <= 0x10FFFF {
                    let code: u32 = v as u32;
                    char_from_u32(code)
                } else {
                    None
                }
            },
            None => None,
        }
    }
}

/// The code point of a character.
pub open spec fn char_code(c: char) -> u32 {
    c as u32
}

/// The character with the given code point.
pub open spec fn code_char(v: u32) -> char {
    choose|c: char| char_code(c) == v
}

/// Two characters with one code point are one character.
proof fn lemma_char_code_injective(a: char, b: char)
    requires
        a as u32 == b as u32,
    ensures
        a == b,
{
}

/// Reads the attribute walk of the tag the last `Start` or `Empty`
/// event opened: the walked attributes on a clean end, a syntax error
/// on a malformed attribute or escape.
fn read_attrs(r: &xmlio::XmlReader<'_>) -> (out: Result<Vec<XmlAttr>, FormatError>)
    requires
        xmlio::token_at(r.text(), r.pos() - 1) matches xmlio::TokenV::Start(_) || xmlio::token_at(
            r.text(),
            r.pos() - 1,
        ) matches xmlio::TokenV::Empty(_),
    ensures
        ({
            let a = xmlio::attrs_at(r.text(), r.pos() - 1);
            match out {
                Ok(v) => a.ok && v.deep_view() == a.list,
                Err(e) => !a.ok && e@ == FormatErrorV::Syntax,
            }
        }),
{
    let ghost a = xmlio::attrs_at(r.text(), r.pos() - 1);
    let mut it = xmlio::attr_iter(r);
    let mut out: Vec<XmlAttr> = Vec::new();
    proof {
        assert(out.deep_view() =~= a.list.subrange(0, 0));
    }
    loop
        invariant
            it.text() == r.text(),
            it.idx() == r.pos() - 1,
            0 <= it.pos() <= a.list.len(),
            a == xmlio::attrs_at(r.text(), r.pos() - 1),
            out@.len() == it.pos(),
            out.deep_view() == a.list.subrange(0, it.pos()),
        decreases a.list.len() - it.pos(),
    {
        let ghost prev_pos = it.pos();
        match xmlio::attr_next(&mut it) {
            xmlio::AttrStep::Item(n, v) => {
                let ghost prev = out;
                out.push(XmlAttr { name: n, value: v });
                proof {
                    crate::lemma_deep_view_push(prev, out, XmlAttr { name: n, value: v });
                    assert(out.deep_view() =~= a.list.subrange(0, prev_pos + 1));
                }
            },
            xmlio::AttrStep::Done => {
                proof {
                    assert(prev_pos == a.list.len());
                    assert(a.list.subrange(0, prev_pos) =~= a.list);
                }
                return Ok(out);
            },
            xmlio::AttrStep::Fail => {
                return Err(FormatError::Syntax);
            },
        }
    }
}

/// What attaching a finished node does to the builder's state: the
/// node becomes the last child of the open element, or the root when
/// none is open; a second root is a syntax error.
pub open spec fn attach_v(stack: Seq<XmlNodeV>, root: Option<XmlNodeV>, n: XmlNodeV) -> Result<
    (Seq<XmlNodeV>, Option<XmlNodeV>),
    FormatErrorV,
> {
    if stack.len() > 0 {
        let p = stack.last();
        Ok(
            (
                stack.drop_last().push(
                    XmlNodeV {
                        name: p.name,
                        attrs: p.attrs,
                        children: p.children.push(n),
                        text: p.text,
                    },
                ),
                root,
            ),
        )
    } else if root is Some {
        Err(FormatErrorV::Syntax)
    } else {
        Ok((stack, Some(n)))
    }
}

/// What appending character data does to the builder's state: the
/// open element's text grows; data outside any element is dropped.
pub open spec fn append_v(stack: Seq<XmlNodeV>, t: Seq<char>) -> Seq<XmlNodeV> {
    if stack.len() == 0 {
        stack
    } else {
        let p = stack.last();
        stack.drop_last().push(
            XmlNodeV { name: p.name, attrs: p.attrs, children: p.children, text: p.text + t },
        )
    }
}

/// Hands a finished node to its parent on the stack, or makes it the
/// root when the stack is empty.
fn attach(stack: &mut Vec<XmlNode>, root: &mut Option<XmlNode>, node: XmlNode) -> (r: Result<
    (),
    FormatError,
>)
    ensures
        match r {
            Ok(()) => attach_v(
                forest_view(old(stack)@),
                old(root).deep_view(),
                node_view(node),
            ) matches Ok(p) && p.0 == forest_view(final(stack)@) && p.1 == final(root).deep_view(),
            Err(e) => attach_v(forest_view(old(stack)@), old(root).deep_view(), node_view(node))
                == Err::<(Seq<XmlNodeV>, Option<XmlNodeV>), FormatErrorV>(e@) && final(stack)@
                == old(stack)@ && *final(root) == *old(root),
        },
{
    broadcast use lemma_forest_view;

    if stack.len() > 0 {
        let i = stack.len() - 1;
        let ghost pre = stack@;
        let mut parent = stack.remove(i);
        proof {
            assert(stack@ =~= pre.drop_last());
        }
        let ghost pc = parent.children@;
        parent.children.push(node);
        proof {
            assert(parent.children@ =~= pc.push(node));
            assert(forest_view(pc.push(node)) =~= forest_view(pc).push(node_view(node)));
        }
        stack.push(parent);
        proof {
            assert(forest_view(stack@) =~= forest_view(pre).drop_last().push(
                node_view(stack@.last()),
            ));
            assert(forest_view(pre).last() == node_view(pre.last()));
            assert(forest_view(pre).drop_last() =~= forest_view(pre.drop_last()));
        }
        Ok(())
    } else {
        match root {
            Some(_) => Err(FormatError::Syntax),
            None => {
                *root = Some(node);
                Ok(())
            },
        }
    }
}

/// Appends character data to the element currently open on the stack.
fn append_text(stack: &mut Vec<XmlNode>, text: &str)
    ensures
        forest_view(final(stack)@) == append_v(forest_view(old(stack)@), text@),
{
    broadcast use lemma_forest_view;

    if stack.len() > 0 {
        let i = stack.len() - 1;
        let ghost pre = stack@;
        let mut top = stack.remove(i);
        proof {
            assert(stack@ =~= pre.drop_last());
        }
        top.text.append(text);
        stack.push(top);
        proof {
            assert(forest_view(stack@) =~= append_v(forest_view(pre), text@));
            assert(forest_view(pre).drop_last() =~= forest_view(pre.drop_last()));
        }
    } else {
        proof {
            assert(forest_view(stack@) == append_v(forest_view(stack@), text@));
        }
    }
}

/// Appends one character to the element currently open on the stack.
fn append_char(stack: &mut Vec<XmlNode>, c: char)
    ensures
        forest_view(final(stack)@) == append_v(forest_view(old(stack)@), seq![c]),
{
    broadcast use lemma_forest_view;

    if stack.len() > 0 {
        let i = stack.len() - 1;
        let ghost pre = stack@;
        let mut top = stack.remove(i);
        proof {
            assert(stack@ =~= pre.drop_last());
        }
        let ghost pt = top.text@;
        push_char(&mut top.text, c);
        proof {
            assert(top.text@ =~= pt + seq![c]);
        }
        stack.push(top);
        proof {
            assert(forest_view(stack@) =~= append_v(forest_view(pre), seq![c]));
            assert(forest_view(pre).drop_last() =~= forest_view(pre.drop_last()));
        }
    } else {
        proof {
            assert(forest_view(stack@) == append_v(forest_view(stack@), seq![c]));
        }
    }
}

/// What reading a whole document yields, defined by recursion over
/// the named tokenizer steps from step `i` with the builder's state:
/// the open-element stack and the root seen so far. The fuel mirrors
/// the builder's iteration bound; the tokenizer yields `Eof` long
/// before it runs out.
pub open spec fn build_from(
    s: Seq<char>,
    i: int,
    fuel: nat,
    stack: Seq<XmlNodeV>,
    root: Option<XmlNodeV>,
) -> Result<XmlNodeV, FormatErrorV>
    decreases fuel,
{
    if fuel == 0 {
        Err(FormatErrorV::Syntax)
    } else {
        match token_at(s, i) {
            xmlio::TokenV::Start(name) => if stack.len() == 0 && root is Some {
                Err(FormatErrorV::Syntax)
            } else {
                let a = attrs_at(s, i);
                if !a.ok {
                    Err(FormatErrorV::Syntax)
                } else {
                    build_from(
                        s,
                        i + 1,
                        (fuel - 1) as nat,
                        stack.push(
                            XmlNodeV {
                                name,
                                attrs: a.list,
                                children: Seq::empty(),
                                text: Seq::empty(),
                            },
                        ),
                        root,
                    )
                }
            },
            xmlio::TokenV::Empty(name) => if stack.len() == 0 && root is Some {
                Err(FormatErrorV::Syntax)
            } else {
                let a = attrs_at(s, i);
                if !a.ok {
                    Err(FormatErrorV::Syntax)
                } else {
                    let n = XmlNodeV {
                        name,
                        attrs: a.list,
                        children: Seq::empty(),
                        text: Seq::empty(),
                    };
                    match attach_v(stack, root, n) {
                        Ok(p) => build_from(s, i + 1, (fuel - 1) as nat, p.0, p.1),
                        Err(e) => Err(e),
                    }
                }
            },
            xmlio::TokenV::End => if stack.len() == 0 {
                Err(FormatErrorV::Syntax)
            } else {
                match attach_v(stack.drop_last(), root, stack.last()) {
                    Ok(p) => build_from(s, i + 1, (fuel - 1) as nat, p.0, p.1),
                    Err(e) => Err(e),
                }
            },
            xmlio::TokenV::Text(t) => build_from(
                s,
                i + 1,
                (fuel - 1) as nat,
                append_v(stack, t),
                root,
            ),
            xmlio::TokenV::CData(t) => build_from(
                s,
                i + 1,
                (fuel - 1) as nat,
                append_v(stack, t),
                root,
            ),
            xmlio::TokenV::Ref(nm) => match ref_code(nm) {
                Some(v) => build_from(
                    s,
                    i + 1,
                    (fuel - 1) as nat,
                    append_v(stack, seq![code_char(v)]),
                    root,
                ),
                None => Err(FormatErrorV::Syntax),
            },
            xmlio::TokenV::Skip => build_from(s, i + 1, (fuel - 1) as nat, stack, root),
            xmlio::TokenV::Eof => if stack.len() > 0 {
                Err(FormatErrorV::Syntax)
            } else {
                match root {
                    Some(n) => Ok(n),
                    None => Err(FormatErrorV::Syntax),
                }
            },
            xmlio::TokenV::Fail => Err(FormatErrorV::Syntax),
        }
    }
}

/// What reading a whole document from its text yields.
pub open spec fn doc_of(s: Seq<char>) -> Result<XmlNodeV, FormatErrorV> {
    build_from(s, 0, usize::MAX as nat, Seq::empty(), None)
}

/// Reads a whole document into its element tree: exactly `doc_of` on
/// the text. Fails with `FormatError::Syntax` when the XML is
/// malformed or has no single root element.
pub fn parse_document(s: &str) -> (r: Result<XmlNode, FormatError>)
    ensures
        crate::error::rv(r) == doc_of(s@),
{
    broadcast use lemma_forest_view;

    let mut reader = xmlio::text_reader(s);
    let mut stack: Vec<XmlNode> = Vec::new();
    let mut root: Option<XmlNode> = None;
    // The reader yields Eof long before this bound; the bound only
    // makes termination provable, and `doc_of` carries the same bound.
    let mut fuel: usize = usize::MAX;
    proof {
        assert(forest_view(stack@) =~= Seq::<XmlNodeV>::empty());
    }
    while fuel > 0
        invariant
            reader.text() == s@,
            0 <= reader.pos(),
            doc_of(s@) == build_from(
                s@,
                reader.pos(),
                fuel as nat,
                forest_view(stack@),
                root.deep_view(),
            ),
        decreases fuel,
    {
        let ghost pre_pos = reader.pos();
        let ghost pre_stack = forest_view(stack@);
        let ghost pre_root = root.deep_view();
        let ghost pre_fuel = fuel as nat;
        let ghost t = token_at(s@, pre_pos);
        fuel = fuel - 1;
        let e = xmlio::next_event(&mut reader);
        match e {
            xmlio::RawEvent::Start => {
                if stack.len() == 0 && root.is_some() {
                    return Err(FormatError::Syntax);
                }
                let name = match xmlio::tag_name(&reader) {
                    Some(n) => n,
                    None => {
                        return Err(FormatError::Syntax);
                    },
                };
                match read_attrs(&reader) {
                    Ok(attrs) => {
                        let node = XmlNode { name, attrs, children: Vec::new(), text: String::new() };
                        proof {
                            assert(forest_view(node.children@) =~= Seq::<XmlNodeV>::empty());
                        }
                        let ghost nv = node_view(node);
                        let ghost pre_vec = stack@;
                        stack.push(node);
                        proof {
                            lemma_forest_view(pre_vec);
                            lemma_forest_view(stack@);
                            assert(forest_view(stack@) =~= pre_stack.push(nv));
                        }
                    },
                    Err(e2) => {
                        return Err(e2);
                    },
                }
            },
            xmlio::RawEvent::Empty => {
                if stack.len() == 0 && root.is_some() {
                    return Err(FormatError::Syntax);
                }
                let name = match xmlio::tag_name(&reader) {
                    Some(n) => n,
                    None => {
                        return Err(FormatError::Syntax);
                    },
                };
                match read_attrs(&reader) {
                    Ok(attrs) => {
                        let node = XmlNode { name, attrs, children: Vec::new(), text: String::new() };
                        proof {
                            assert(forest_view(node.children@) =~= Seq::<XmlNodeV>::empty());
                        }
                        match attach(&mut stack, &mut root, node) {
                            Ok(()) => {},
                            Err(e2) => {
                                return Err(e2);
                            },
                        }
                    },
                    Err(e2) => {
                        return Err(e2);
                    },
                }
            },
            xmlio::RawEvent::End => {
                let ghost pre_vec = stack@;
                match stack.pop() {
                    Some(node) => {
                        proof {
                            lemma_forest_view(pre_vec);
                            lemma_forest_view(stack@);
                            assert(forest_view(stack@) =~= pre_stack.drop_last());
                            assert(node_view(node) == pre_stack.last());
                        }
                        match attach(&mut stack, &mut root, node) {
                            Ok(()) => {},
                            Err(e2) => {
                                return Err(e2);
                            },
                        }
                    },
                    None => {
                        return Err(FormatError::Syntax);
                    },
                }
            },
            xmlio::RawEvent::Text(x) => {
                append_text(&mut stack, x.as_str());
            },
            xmlio::RawEvent::CData(x) => {
                append_text(&mut stack, x.as_str());
            },
            xmlio::RawEvent::Ref(x) => {
                match resolve_reference(x.as_str()) {
                    Some(c) => {
                        proof {
                            let v = ref_code(x@)->0;
                            assert(c as u32 == v);
                            assert(char_code(c) == v);
                            assert(exists|d: char| char_code(d) == v);
                            assert(char_code(code_char(v)) == v);
                            assert(code_char(v) as u32 == v);
                            lemma_char_code_injective(code_char(v), c);
                        }
                        append_char(&mut stack, c);
                    },
                    None => {
                        return Err(FormatError::Syntax);
                    },
                }
            },
            xmlio::RawEvent::Skip => {},
            xmlio::RawEvent::Eof => {
                if stack.len() > 0 {
                    return Err(FormatError::Syntax);
                }
                match root {
                    Some(r) => {
                        return Ok(r);
                    },
                    None => {
                        return Err(FormatError::Syntax);
                    },
                }
            },
            xmlio::RawEvent::Fail => {
                return Err(FormatError::Syntax);
            },
        }
    }
    Err(FormatError::Syntax)
}

/// The first attribute with the given name, if any.
pub open spec fn find_attr(s: Seq<XmlAttrV>, name: Seq<char>) -> Option<Seq<char>>
    decreases s.len(),
{
    if s.len() == 0 {
        None
    } else if s[0].name == name {
        Some(s[0].value)
    } else {
        find_attr(s.drop_first(), name)
    }
}

/// The first child element with the given name, if any.
pub open spec fn find_child(s: Seq<XmlNodeV>, name: Seq<char>) -> Option<XmlNodeV>
    decreases s.len(),
{
    if s.len() == 0 {
        None
    } else if s[0].name == name {
        Some(s[0])
    } else {
        find_child(s.drop_first(), name)
    }
}

proof fn lemma_find_attr_skip(s: Seq<XmlAttrV>, name: Seq<char>, i: int)
    requires
        0 <= i <= s.len(),
        forall|j: int| 0 <= j < i ==> s[j].name != name,
    ensures
        find_attr(s, name) == find_attr(s.subrange(i, s.len() as int), name),
    decreases i,
{
    if i > 0 {
        assert(s.drop_first() =~= s.subrange(1, s.len() as int));
        lemma_find_attr_skip(s.drop_first(), name, i - 1);
        assert(s.drop_first().subrange(i - 1, s.drop_first().len() as int) =~= s.subrange(
            i,
            s.len() as int,
        ));
    } else {
        assert(s.subrange(0, s.len() as int) =~= s);
    }
}

proof fn lemma_find_child_skip(s: Seq<XmlNodeV>, name: Seq<char>, i: int)
    requires
        0 <= i <= s.len(),
        forall|j: int| 0 <= j < i ==> s[j].name != name,
    ensures
        find_child(s, name) == find_child(s.subrange(i, s.len() as int), name),
    decreases i,
{
    if i > 0 {
        assert(s.drop_first() =~= s.subrange(1, s.len() as int));
        lemma_find_child_skip(s.drop_first(), name, i - 1);
        assert(s.drop_first().subrange(i - 1, s.drop_first().len() as int) =~= s.subrange(
            i,
            s.len() as int,
        ));
    } else {
        assert(s.subrange(0, s.len() as int) =~= s);
    }
}

impl XmlNode {
    /// The value of the first attribute with the given name, if any.
    pub fn attr(&self, name: &str) -> (r: Option<String>)
        ensures
            r.deep_view() == find_attr(self@.attrs, name@),
    {
        let mut i: usize = 0;
        while i < self.attrs.len()
            invariant
                0 <= i <= self.attrs.len(),
                forall|j: int| 0 <= j < i ==> self@.attrs[j].name != name@,
                self@.attrs.len() == self.attrs.len(),
                forall|j: int|
                    0 <= j < self.attrs.len() ==> self@.attrs[j] == self.attrs@[j].deep_view(),
            decreases self.attrs.len() - i,
        {
            if crate::strutil::str_eq(self.attrs[i].name.as_str(), name) {
                proof {
                    lemma_find_attr_skip(self@.attrs, name@, i as int);
                    assert(self@.attrs.subrange(i as int, self@.attrs.len() as int)[0]
                        == self@.attrs[i as int]);
                }
                let v = self.attrs[i].value.clone();
                return Some(v);
            }
            i = i + 1;
        }
        proof {
            lemma_find_attr_skip(self@.attrs, name@, i as int);
            assert(self@.attrs.subrange(i as int, self@.attrs.len() as int).len() == 0);
        }
        None
    }

    /// The first child element with the given name, if any.
    pub fn child<'a>(&'a self, name: &str) -> (r: Option<&'a XmlNode>)
        ensures
            match r {
                Some(c) => find_child(self@.children, name@) == Some(c@),
                None => find_child(self@.children, name@) is None,
            },
    {
        broadcast use lemma_forest_view;

        let ghost cs = self@.children;
        proof {
            lemma_forest_view(self.children@);
            assert(cs == forest_view(self.children@));
        }
        let mut i: usize = 0;
        while i < self.children.len()
            invariant
                0 <= i <= self.children.len(),
                cs == self@.children,
                cs.len() == self.children.len(),
                forall|j: int| 0 <= j < i ==> cs[j].name != name@,
                forall|j: int| 0 <= j < cs.len() ==> cs[j] == node_view(self.children@[j]),
            decreases self.children.len() - i,
        {
            if crate::strutil::str_eq(self.children[i].name.as_str(), name) {
                proof {
                    lemma_find_child_skip(cs, name@, i as int);
                    assert(cs.subrange(i as int, cs.len() as int)[0] == cs[i as int]);
                }
                return Some(&self.children[i]);
            }
            i = i + 1;
        }
        proof {
            lemma_find_child_skip(cs, name@, i as int);
            assert(cs.subrange(i as int, cs.len() as int).len() == 0);
        }
        None
    }
}

} // verus!
