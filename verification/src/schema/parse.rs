//! The verified grammar: how each schema type is read off an element
//! tree. Every parser has a specification twin over the shadow types;
//! the contract of each executable parser equates the two.
//!
//! Grammar conventions, shared by all parsers:
//! - a required attribute or child element that is absent yields
//!   `MissingAttribute` / `MissingElement` with that name;
//! - an attribute or text value outside its fixed set yields `BadValue`
//!   with the attribute or element name;
//! - numeric and boolean texts are trimmed of XML whitespace first,
//!   enumerated names are matched exactly;
//! - a repeated child element may occur zero times: the list is then
//!   empty;
//! - children are read in document order, and the leftmost offending
//!   child decides the error.
use crate::error::{rv, FormatError, FormatErrorV};
use crate::schema::types::{
    CompositeDependency, CompositeDependencyV, ConditionFlagList, ConditionFlagListV,
    DependencyOperator, DependencyState, FileDependencyV, FileList, FileListV, FileType, FileTypeV,
    FlagDependencyV, GroupType, HeaderImage, HeaderImageV, Image, ImageV, ModuleDependency,
    ModuleDependencyV, OrderEnum, Plugin, PluginList, PluginListV, PluginType,
    PluginTypeDescriptor, PluginTypeDescriptorEnum, PluginTypeDescriptorEnumV,
    PluginTypeDescriptorV, PluginTypeEnum, PluginV, SetConditionFlag, SetConditionFlagV,
    VersionDependencyV,
};
use crate::schema::types::{
    DependencyPattern, DependencyPatternList, DependencyPatternListV, DependencyPatternV,
    DependencyPluginType, DependencyPluginTypeV,
};
use crate::schema::types::{
    ConditionalFileInstallList, ConditionalFileInstallListV, ConditionalInstallPattern,
    ConditionalInstallPatternList, ConditionalInstallPatternListV, ConditionalInstallPatternV,
    Group, GroupList, GroupListV, GroupV, InstallStep, InstallStepV, StepList, StepListV,
};
use crate::schema::{Config, ConfigV, Info, InfoV};
use crate::strutil;
use crate::xmltree::{find_attr, find_child, lemma_forest_view, node_view, XmlNode, XmlNodeV};
use vstd::prelude::*;

verus! {

/// A `MissingAttribute` error carrying the given name.
pub fn missing_attr(name: &str) -> (e: FormatError)
    ensures
        e@ == FormatErrorV::MissingAttribute(name@),
{
    FormatError::MissingAttribute(String::from_str(name))
}

/// A `MissingElement` error carrying the given name.
pub fn missing_elem(name: &str) -> (e: FormatError)
    ensures
        e@ == FormatErrorV::MissingElement(name@),
{
    FormatError::MissingElement(String::from_str(name))
}

/// A `BadValue` error carrying the given name.
pub fn bad_value(name: &str) -> (e: FormatError)
    ensures
        e@ == FormatErrorV::BadValue(name@),
{
    FormatError::BadValue(String::from_str(name))
}

/// The order an `order` attribute text denotes.
pub open spec fn order_of_text(t: Seq<char>) -> Option<OrderEnum> {
    if t == "Ascending"@ {
        Some(OrderEnum::Ascending)
    } else if t == "Explicit"@ {
        Some(OrderEnum::Explicit)
    } else if t == "Descending"@ {
        Some(OrderEnum::Descending)
    } else {
        None
    }
}

/// Parses an `order` attribute text.
pub fn order_of(t: &str) -> (r: Option<OrderEnum>)
    ensures
        r == order_of_text(t@),
{
    if strutil::str_eq(t, "Ascending") {
        Some(OrderEnum::Ascending)
    } else if strutil::str_eq(t, "Explicit") {
        Some(OrderEnum::Explicit)
    } else if strutil::str_eq(t, "Descending") {
        Some(OrderEnum::Descending)
    } else {
        None
    }
}

/// The state a `state` attribute text denotes.
pub open spec fn state_of_text(t: Seq<char>) -> Option<DependencyState> {
    if t == "Active"@ {
        Some(DependencyState::Active)
    } else if t == "Inactive"@ {
        Some(DependencyState::Inactive)
    } else if t == "Missing"@ {
        Some(DependencyState::Missing)
    } else {
        None
    }
}

/// Parses a `state` attribute text.
pub fn state_of(t: &str) -> (r: Option<DependencyState>)
    ensures
        r == state_of_text(t@),
{
    if strutil::str_eq(t, "Active") {
        Some(DependencyState::Active)
    } else if strutil::str_eq(t, "Inactive") {
        Some(DependencyState::Inactive)
    } else if strutil::str_eq(t, "Missing") {
        Some(DependencyState::Missing)
    } else {
        None
    }
}

/// The operator an `operator` attribute text denotes.
pub open spec fn operator_of_text(t: Seq<char>) -> Option<DependencyOperator> {
    if t == "And"@ {
        Some(DependencyOperator::And)
    } else if t == "Or"@ {
        Some(DependencyOperator::Or)
    } else {
        None
    }
}

/// Parses an `operator` attribute text.
pub fn operator_of(t: &str) -> (r: Option<DependencyOperator>)
    ensures
        r == operator_of_text(t@),
{
    if strutil::str_eq(t, "And") {
        Some(DependencyOperator::And)
    } else if strutil::str_eq(t, "Or") {
        Some(DependencyOperator::Or)
    } else {
        None
    }
}

/// The group type a `type` attribute text denotes.
pub open spec fn group_type_of_text(t: Seq<char>) -> Option<GroupType> {
    if t == "SelectAtLeastOne"@ {
        Some(GroupType::SelectAtLeastOne)
    } else if t == "SelectAtMostOne"@ {
        Some(GroupType::SelectAtMostOne)
    } else if t == "SelectExactlyOne"@ {
        Some(GroupType::SelectExactlyOne)
    } else if t == "SelectAll"@ {
        Some(GroupType::SelectAll)
    } else if t == "SelectAny"@ {
        Some(GroupType::SelectAny)
    } else {
        None
    }
}

/// Parses a group `type` attribute text.
pub fn group_type_of(t: &str) -> (r: Option<GroupType>)
    ensures
        r == group_type_of_text(t@),
{
    if strutil::str_eq(t, "SelectAtLeastOne") {
        Some(GroupType::SelectAtLeastOne)
    } else if strutil::str_eq(t, "SelectAtMostOne") {
        Some(GroupType::SelectAtMostOne)
    } else if strutil::str_eq(t, "SelectExactlyOne") {
        Some(GroupType::SelectExactlyOne)
    } else if strutil::str_eq(t, "SelectAll") {
        Some(GroupType::SelectAll)
    } else if strutil::str_eq(t, "SelectAny") {
        Some(GroupType::SelectAny)
    } else {
        None
    }
}

/// The plugin type a type `name` attribute text denotes.
pub open spec fn plugin_type_of_text(t: Seq<char>) -> Option<PluginTypeEnum> {
    if t == "Required"@ {
        Some(PluginTypeEnum::Required)
    } else if t == "Optional"@ {
        Some(PluginTypeEnum::Optional)
    } else if t == "Recommended"@ {
        Some(PluginTypeEnum::Recommended)
    } else if t == "NotUsable"@ {
        Some(PluginTypeEnum::NotUsable)
    } else if t == "CouldBeUsable"@ {
        Some(PluginTypeEnum::CouldBeUsable)
    } else {
        None
    }
}

/// Parses a plugin type `name` attribute text.
pub fn plugin_type_of(t: &str) -> (r: Option<PluginTypeEnum>)
    ensures
        r == plugin_type_of_text(t@),
{
    if strutil::str_eq(t, "Required") {
        Some(PluginTypeEnum::Required)
    } else if strutil::str_eq(t, "Optional") {
        Some(PluginTypeEnum::Optional)
    } else if strutil::str_eq(t, "Recommended") {
        Some(PluginTypeEnum::Recommended)
    } else if strutil::str_eq(t, "NotUsable") {
        Some(PluginTypeEnum::NotUsable)
    } else if strutil::str_eq(t, "CouldBeUsable") {
        Some(PluginTypeEnum::CouldBeUsable)
    } else {
        None
    }
}

/// What a boolean attribute with the given name yields: false when the
/// attribute is absent, its value when the text is a boolean, an error
/// otherwise.
pub open spec fn bool_attr_spec(n: XmlNodeV, name: Seq<char>) -> Result<bool, FormatErrorV> {
    match find_attr(n.attrs, name) {
        None => Ok(false),
        Some(t) => match strutil::parse_bool_spec(strutil::xml_trim(t)) {
            Some(b) => Ok(b),
            None => Err(FormatErrorV::BadValue(name)),
        },
    }
}

/// Parses a boolean attribute that defaults to false.
pub fn bool_attr(n: &XmlNode, name: &str) -> (r: Result<bool, FormatError>)
    ensures
        rv(r) == bool_attr_spec(n@, name@),
{
    match n.attr(name) {
        None => Ok(false),
        Some(v) => {
            let t = strutil::xml_trim_exec(v.as_str());
            match strutil::parse_bool(t.as_str()) {
                Some(b) => Ok(b),
                None => Err(bad_value(name)),
            }
        },
    }
}

/// What an optional numeric child element with the given name yields:
/// None when the element is absent, its value when the text is a
/// number in range, an error otherwise.
pub open spec fn isize_child_spec(n: XmlNodeV, name: Seq<char>) -> Result<
    Option<isize>,
    FormatErrorV,
> {
    match find_child(n.children, name) {
        None => Ok(None),
        Some(c) => match strutil::parse_isize_spec(strutil::xml_trim(c.text)) {
            Some(v) => Ok(Some(v)),
            None => Err(FormatErrorV::BadValue(name)),
        },
    }
}

/// Parses an optional numeric child element.
pub fn isize_child(n: &XmlNode, name: &str) -> (r: Result<Option<isize>, FormatError>)
    ensures
        rv(r) == isize_child_spec(n@, name@),
{
    match n.child(name) {
        None => Ok(None),
        Some(c) => {
            let t = strutil::xml_trim_exec(c.text.as_str());
            match strutil::parse_isize(t.as_str()) {
                Some(v) => Ok(Some(v)),
                None => Err(bad_value(name)),
            }
        },
    }
}

/// What a `file` or `folder` element yields: the `source` attribute is
/// required, `destination` and `alwaysInstall` are optional,
/// `installIfUsable` defaults to false, and an optional `priority`
/// child carries a number.
pub open spec fn file_type_spec(n: XmlNodeV) -> Result<FileTypeV, FormatErrorV> {
    match find_attr(n.attrs, "source"@) {
        None => Err(FormatErrorV::MissingAttribute("source"@)),
        Some(src) => match bool_attr_spec(n, "installIfUsable"@) {
            Err(e) => Err(e),
            Ok(iu) => match isize_child_spec(n, "priority"@) {
                Err(e) => Err(e),
                Ok(pr) => Ok(
                    FileTypeV {
                        source: src,
                        destination: find_attr(n.attrs, "destination"@),
                        always_install: find_attr(n.attrs, "alwaysInstall"@),
                        install_if_usable: iu,
                        priority: pr,
                    },
                ),
            },
        },
    }
}

impl FileType {
    /// Reads a file or folder mapping off its element.
    pub fn from_node(n: &XmlNode) -> (r: Result<FileType, FormatError>)
        ensures
            rv(r) == file_type_spec(n@),
    {
        let source = match n.attr("source") {
            Some(v) => v,
            None => {
                return Err(missing_attr("source"));
            },
        };
        let install_if_usable = match bool_attr(n, "installIfUsable") {
            Ok(b) => b,
            Err(e) => {
                return Err(e);
            },
        };
        let priority = match isize_child(n, "priority") {
            Ok(p) => p,
            Err(e) => {
                return Err(e);
            },
        };
        Ok(
            FileType {
                source,
                destination: n.attr("destination"),
                always_install: n.attr("alwaysInstall"),
                install_if_usable,
                priority,
            },
        )
    }
}


/// What the children with the given name yield under the given element
/// parser, in document order; the leftmost failing child decides the
/// error, and zero matching children give the empty sequence.
pub open spec fn parse_named<T>(
    s: Seq<XmlNodeV>,
    name: Seq<char>,
    f: spec_fn(XmlNodeV) -> Result<T, FormatErrorV>,
) -> Result<Seq<T>, FormatErrorV>
    decreases s.len(),
{
    if s.len() == 0 {
        Ok(Seq::empty())
    } else {
        match parse_named(s.drop_last(), name, f) {
            Err(e) => Err(e),
            Ok(vs) => if s.last().name == name {
                match f(s.last()) {
                    Ok(v) => Ok(vs.push(v)),
                    Err(e) => Err(e),
                }
            } else {
                Ok(vs)
            },
        }
    }
}

/// What all the children yield under the given element parser,
/// whatever their names.
pub open spec fn parse_each<T>(
    s: Seq<XmlNodeV>,
    f: spec_fn(XmlNodeV) -> Result<T, FormatErrorV>,
) -> Result<Seq<T>, FormatErrorV>
    decreases s.len(),
{
    if s.len() == 0 {
        Ok(Seq::empty())
    } else {
        match parse_each(s.drop_last(), f) {
            Err(e) => Err(e),
            Ok(vs) => match f(s.last()) {
                Ok(v) => Ok(vs.push(v)),
                Err(e) => Err(e),
            },
        }
    }
}

/// A failing prefix decides `parse_named` for the whole sequence.
pub proof fn lemma_parse_named_err<T>(
    s: Seq<XmlNodeV>,
    name: Seq<char>,
    f: spec_fn(XmlNodeV) -> Result<T, FormatErrorV>,
    i: int,
)
    requires
        0 <= i <= s.len(),
        parse_named(s.subrange(0, i), name, f) is Err,
    ensures
        parse_named(s, name, f) == parse_named(s.subrange(0, i), name, f),
    decreases s.len() - i,
{
    if i < s.len() {
        assert(s.subrange(0, i + 1).drop_last() =~= s.subrange(0, i));
        assert(s.subrange(0, i + 1).last() == s[i]);
        lemma_parse_named_err(s, name, f, i + 1);
    } else {
        assert(s.subrange(0, i) =~= s);
    }
}

/// A failing prefix decides `parse_each` for the whole sequence.
pub proof fn lemma_parse_each_err<T>(
    s: Seq<XmlNodeV>,
    f: spec_fn(XmlNodeV) -> Result<T, FormatErrorV>,
    i: int,
)
    requires
        0 <= i <= s.len(),
        parse_each(s.subrange(0, i), f) is Err,
    ensures
        parse_each(s, f) == parse_each(s.subrange(0, i), f),
    decreases s.len() - i,
{
    if i < s.len() {
        assert(s.subrange(0, i + 1).drop_last() =~= s.subrange(0, i));
        assert(s.subrange(0, i + 1).last() == s[i]);
        lemma_parse_each_err(s, f, i + 1);
    } else {
        assert(s.subrange(0, i) =~= s);
    }
}

/// What an `image` element yields: its required `path` attribute.
pub open spec fn image_spec(n: XmlNodeV) -> Result<ImageV, FormatErrorV> {
    match find_attr(n.attrs, "path"@) {
        None => Err(FormatErrorV::MissingAttribute("path"@)),
        Some(p) => Ok(ImageV { path: p }),
    }
}

impl Image {
    /// Reads an `image` element.
    pub fn from_node(n: &XmlNode) -> (r: Result<Image, FormatError>)
        ensures
            rv(r) == image_spec(n@),
    {
        match n.attr("path") {
            Some(p) => Ok(Image { path: p }),
            None => Err(missing_attr("path")),
        }
    }
}

/// What a `moduleImage` element yields: optional `path`, boolean
/// `showImage` and `showFade` defaulting to false, and an optional
/// numeric `height` child.
pub open spec fn header_image_spec(n: XmlNodeV) -> Result<HeaderImageV, FormatErrorV> {
    match bool_attr_spec(n, "showImage"@) {
        Err(e) => Err(e),
        Ok(si) => match bool_attr_spec(n, "showFade"@) {
            Err(e) => Err(e),
            Ok(sf) => match isize_child_spec(n, "height"@) {
                Err(e) => Err(e),
                Ok(h) => Ok(
                    HeaderImageV {
                        path: find_attr(n.attrs, "path"@),
                        show_image: si,
                        show_fade: sf,
                        height: h,
                    },
                ),
            },
        },
    }
}

impl HeaderImage {
    /// Reads a `moduleImage` element.
    pub fn from_node(n: &XmlNode) -> (r: Result<HeaderImage, FormatError>)
        ensures
            rv(r) == header_image_spec(n@),
    {
        let show_image = match bool_attr(n, "showImage") {
            Ok(b) => b,
            Err(e) => {
                return Err(e);
            },
        };
        let show_fade = match bool_attr(n, "showFade") {
            Ok(b) => b,
            Err(e) => {
                return Err(e);
            },
        };
        let height = match isize_child(n, "height") {
            Ok(h) => h,
            Err(e) => {
                return Err(e);
            },
        };
        Ok(HeaderImage { path: n.attr("path"), show_image, show_fade, height })
    }
}

/// What a `type` element yields: its required `name` attribute, which
/// must spell one of the five plugin types.
pub open spec fn plugin_type_spec(n: XmlNodeV) -> Result<PluginType, FormatErrorV> {
    match find_attr(n.attrs, "name"@) {
        None => Err(FormatErrorV::MissingAttribute("name"@)),
        Some(t) => match plugin_type_of_text(t) {
            Some(p) => Ok(PluginType { name: p }),
            None => Err(FormatErrorV::BadValue("name"@)),
        },
    }
}

impl PluginType {
    /// Reads a `type` element.
    pub fn from_node(n: &XmlNode) -> (r: Result<PluginType, FormatError>)
        ensures
            rv(r) == plugin_type_spec(n@),
    {
        match n.attr("name") {
            None => Err(missing_attr("name")),
            Some(t) => match plugin_type_of(t.as_str()) {
                Some(p) => Ok(PluginType { name: p }),
                None => Err(bad_value("name")),
            },
        }
    }
}

/// What a `flag` element yields: its required `name` attribute and its
/// text content as the value the flag is set to.
pub open spec fn set_flag_spec(n: XmlNodeV) -> Result<SetConditionFlagV, FormatErrorV> {
    match find_attr(n.attrs, "name"@) {
        None => Err(FormatErrorV::MissingAttribute("name"@)),
        Some(nm) => Ok(SetConditionFlagV { name: nm, flag_value: n.text }),
    }
}

impl SetConditionFlag {
    /// Reads a `flag` element.
    pub fn from_node(n: &XmlNode) -> (r: Result<SetConditionFlag, FormatError>)
        ensures
            rv(r) == set_flag_spec(n@),
    {
        match n.attr("name") {
            None => Err(missing_attr("name")),
            Some(nm) => Ok(SetConditionFlag { name: nm, flag_value: n.text.clone() }),
        }
    }
}

/// What a `conditionFlags` element yields: its `flag` children.
pub open spec fn condition_flags_spec(n: XmlNodeV) -> Result<ConditionFlagListV, FormatErrorV> {
    match parse_named(n.children, "flag"@, |c: XmlNodeV| set_flag_spec(c)) {
        Ok(vs) => Ok(ConditionFlagListV { flag: vs }),
        Err(e) => Err(e),
    }
}

impl ConditionFlagList {
    /// Reads a `conditionFlags` element.
    pub fn from_node(n: &XmlNode) -> (r: Result<ConditionFlagList, FormatError>)
        ensures
            rv(r) == condition_flags_spec(n@),
    {
        let ghost cs = n@.children;
        let ghost f = |c: XmlNodeV| set_flag_spec(c);
        proof {
            lemma_forest_view(n.children@);
        }
        let mut out: Vec<SetConditionFlag> = Vec::new();
        proof {
            assert(out.deep_view() =~= Seq::<SetConditionFlagV>::empty());
            assert(cs.subrange(0, 0) =~= Seq::<XmlNodeV>::empty());
        }
        let mut i: usize = 0;
        while i < n.children.len()
            invariant
                0 <= i <= n.children.len(),
                cs == n@.children,
                cs.len() == n.children@.len(),
                forall|j: int| 0 <= j < cs.len() ==> cs[j] == node_view(n.children@[j]),
                f == (|c: XmlNodeV| set_flag_spec(c)),
                parse_named(cs.subrange(0, i as int), "flag"@, f) == Ok::<_, FormatErrorV>(
                    out.deep_view(),
                ),
            decreases n.children.len() - i,
        {
            let c = &n.children[i];
            proof {
                assert(cs.subrange(0, i + 1).drop_last() =~= cs.subrange(0, i as int));
                assert(cs.subrange(0, i + 1).last() == cs[i as int]);
            }
            if strutil::str_eq(c.name.as_str(), "flag") {
                match SetConditionFlag::from_node(c) {
                    Ok(v) => {
                        let ghost prev = out;
                        out.push(v);
                        proof {
                            crate::lemma_deep_view_push(prev, out, v);
                        }
                    },
                    Err(e) => {
                        proof {
                            lemma_parse_named_err(cs, "flag"@, f, i + 1);
                        }
                        return Err(e);
                    },
                }
            }
            i = i + 1;
        }
        proof {
            assert(cs.subrange(0, cs.len() as int) =~= cs);
        }
        Ok(ConditionFlagList { flag: out })
    }
}

/// What a `files` or `requiredInstallFiles` element yields: with no
/// element children the list is declared absent; otherwise every child,
/// whatever its tag, is a file mapping.
pub open spec fn file_list_spec(n: XmlNodeV) -> Result<FileListV, FormatErrorV> {
    if n.children.len() == 0 {
        Ok(FileListV { list: None })
    } else {
        match parse_each(n.children, |c: XmlNodeV| file_type_spec(c)) {
            Ok(vs) => Ok(FileListV { list: Some(vs) }),
            Err(e) => Err(e),
        }
    }
}

impl FileList {
    /// Reads a file-list element.
    pub fn from_node(n: &XmlNode) -> (r: Result<FileList, FormatError>)
        ensures
            rv(r) == file_list_spec(n@),
    {
        let ghost cs = n@.children;
        let ghost f = |c: XmlNodeV| file_type_spec(c);
        proof {
            lemma_forest_view(n.children@);
        }
        if n.children.len() == 0 {
            return Ok(FileList { list: None });
        }
        let mut out: Vec<FileType> = Vec::new();
        proof {
            assert(out.deep_view() =~= Seq::<FileTypeV>::empty());
            assert(cs.subrange(0, 0) =~= Seq::<XmlNodeV>::empty());
        }
        let mut i: usize = 0;
        while i < n.children.len()
            invariant
                0 <= i <= n.children.len(),
                cs == n@.children,
                cs.len() == n.children@.len(),
                forall|j: int| 0 <= j < cs.len() ==> cs[j] == node_view(n.children@[j]),
                f == (|c: XmlNodeV| file_type_spec(c)),
                parse_each(cs.subrange(0, i as int), f) == Ok::<_, FormatErrorV>(out.deep_view()),
            decreases n.children.len() - i,
        {
            let c = &n.children[i];
            proof {
                assert(cs.subrange(0, i + 1).drop_last() =~= cs.subrange(0, i as int));
                assert(cs.subrange(0, i + 1).last() == cs[i as int]);
            }
            match FileType::from_node(c) {
                Ok(v) => {
                    let ghost prev = out;
                    out.push(v);
                    proof {
                        crate::lemma_deep_view_push(prev, out, v);
                    }
                },
                Err(e) => {
                    proof {
                        lemma_parse_each_err(cs, f, i + 1);
                    }
                    return Err(e);
                },
            }
            i = i + 1;
        }
        proof {
            assert(cs.subrange(0, cs.len() as int) =~= cs);
        }
        Ok(FileList { list: Some(out) })
    }
}


/// What a dependency element yields, decided by its tag name:
/// `fileDependency`, `flagDependency`, `gameDependency` and
/// `fommDependency` are leaves read from their attributes, and
/// `dependencies` is an operator node over its children; any other
/// tag is rejected.
pub open spec fn comp_dep_spec(n: XmlNodeV) -> Result<CompositeDependencyV, FormatErrorV>
    decreases n,
{
    if n.name == "fileDependency"@ {
        match find_attr(n.attrs, "file"@) {
            None => Err(FormatErrorV::MissingAttribute("file"@)),
            Some(f) => match find_attr(n.attrs, "state"@) {
                None => Err(FormatErrorV::MissingAttribute("state"@)),
                Some(st) => match state_of_text(st) {
                    Some(d) => Ok(
                        CompositeDependencyV::File(FileDependencyV { file_name: f, state: d }),
                    ),
                    None => Err(FormatErrorV::BadValue("state"@)),
                },
            },
        }
    } else if n.name == "flagDependency"@ {
        match find_attr(n.attrs, "flag"@) {
            None => Err(FormatErrorV::MissingAttribute("flag"@)),
            Some(f) => match find_attr(n.attrs, "value"@) {
                None => Err(FormatErrorV::MissingAttribute("value"@)),
                Some(v) => Ok(CompositeDependencyV::Flag(FlagDependencyV { flag: f, value: v })),
            },
        }
    } else if n.name == "gameDependency"@ {
        match find_attr(n.attrs, "version"@) {
            None => Err(FormatErrorV::MissingAttribute("version"@)),
            Some(v) => Ok(CompositeDependencyV::Game(VersionDependencyV { version: v })),
        }
    } else if n.name == "fommDependency"@ {
        match find_attr(n.attrs, "version"@) {
            None => Err(FormatErrorV::MissingAttribute("version"@)),
            Some(v) => Ok(CompositeDependencyV::Fomm(VersionDependencyV { version: v })),
        }
    } else if n.name == "dependencies"@ {
        match mod_dep_spec(n) {
            Ok(m) => Ok(CompositeDependencyV::Dependency(m)),
            Err(e) => Err(e),
        }
    } else {
        Err(FormatErrorV::BadValue(n.name))
    }
}

/// What a dependency group element (`moduleDependencies` or a nested
/// `dependencies`) yields: its required `operator` attribute over its
/// children, each a dependency element.
pub open spec fn mod_dep_spec(n: XmlNodeV) -> Result<ModuleDependencyV, FormatErrorV>
    decreases n, 1int,
{
    match find_attr(n.attrs, "operator"@) {
        None => Err(FormatErrorV::MissingAttribute("operator"@)),
        Some(t) => match operator_of_text(t) {
            None => Err(FormatErrorV::BadValue("operator"@)),
            Some(op) => match comp_list_spec(n.children) {
                Ok(list) => Ok(ModuleDependencyV { operator: op, list }),
                Err(e) => Err(e),
            },
        },
    }
}

/// What a sequence of dependency elements yields, in document order.
pub open spec fn comp_list_spec(s: Seq<XmlNodeV>) -> Result<Seq<CompositeDependencyV>, FormatErrorV>
    decreases s, 0int,
{
    if s.len() == 0 {
        Ok(Seq::empty())
    } else {
        match comp_list_spec(s.drop_last()) {
            Err(e) => Err(e),
            Ok(vs) => match comp_dep_spec(s.last()) {
                Ok(v) => Ok(vs.push(v)),
                Err(e) => Err(e),
            },
        }
    }
}

/// A failing prefix decides `comp_list_spec` for the whole sequence.
pub proof fn lemma_comp_list_err(s: Seq<XmlNodeV>, i: int)
    requires
        0 <= i <= s.len(),
        comp_list_spec(s.subrange(0, i)) is Err,
    ensures
        comp_list_spec(s) == comp_list_spec(s.subrange(0, i)),
    decreases s.len() - i,
{
    if i < s.len() {
        assert(s.subrange(0, i + 1).drop_last() =~= s.subrange(0, i));
        assert(s.subrange(0, i + 1).last() == s[i]);
        lemma_comp_list_err(s, i + 1);
    } else {
        assert(s.subrange(0, i) =~= s);
    }
}

/// Reads the children of `n` as dependency elements.
fn parse_comp_children(n: &XmlNode) -> (r: Result<Vec<CompositeDependency>, FormatError>)
    ensures
        match r {
            Ok(v) => comp_list_spec(n@.children) == Ok::<_, FormatErrorV>(v.deep_view()),
            Err(e) => comp_list_spec(n@.children) == Err::<Seq<CompositeDependencyV>, _>(e@),
        },
    decreases *n, 0int,
{
    let ghost cs = n@.children;
    proof {
        lemma_forest_view(n.children@);
    }
    let mut out: Vec<CompositeDependency> = Vec::new();
    proof {
        assert(out.deep_view() =~= Seq::<CompositeDependencyV>::empty());
        assert(cs.subrange(0, 0) =~= Seq::<XmlNodeV>::empty());
    }
    let mut i: usize = 0;
    while i < n.children.len()
        invariant
            0 <= i <= n.children.len(),
            cs == n@.children,
            cs.len() == n.children@.len(),
            forall|j: int| 0 <= j < cs.len() ==> cs[j] == node_view(n.children@[j]),
            comp_list_spec(cs.subrange(0, i as int)) == Ok::<_, FormatErrorV>(out.deep_view()),
        decreases n.children.len() - i,
    {
        let c = &n.children[i];
        proof {
            assert(cs.subrange(0, i + 1).drop_last() =~= cs.subrange(0, i as int));
            assert(cs.subrange(0, i + 1).last() == cs[i as int]);
        }
        match CompositeDependency::from_node(c) {
            Ok(v) => {
                let ghost prev = out;
                out.push(v);
                proof {
                    crate::lemma_deep_view_push(prev, out, v);
                }
            },
            Err(e) => {
                proof {
                    lemma_comp_list_err(cs, i + 1);
                }
                return Err(e);
            },
        }
        i = i + 1;
    }
    proof {
        assert(cs.subrange(0, cs.len() as int) =~= cs);
    }
    Ok(out)
}

impl CompositeDependency {
    /// Reads a dependency element, decided by its tag name.
    pub fn from_node(n: &XmlNode) -> (r: Result<CompositeDependency, FormatError>)
        ensures
            rv(r) == comp_dep_spec(n@),
        decreases *n, 2int,
    {
        if strutil::str_eq(n.name.as_str(), "fileDependency") {
            let file_name = match n.attr("file") {
                Some(v) => v,
                None => {
                    return Err(missing_attr("file"));
                },
            };
            let st = match n.attr("state") {
                Some(v) => v,
                None => {
                    return Err(missing_attr("state"));
                },
            };
            match state_of(st.as_str()) {
                Some(d) => Ok(
                    CompositeDependency::File(
                        crate::schema::types::FileDependency { file_name, state: d },
                    ),
                ),
                None => Err(bad_value("state")),
            }
        } else if strutil::str_eq(n.name.as_str(), "flagDependency") {
            let flag = match n.attr("flag") {
                Some(v) => v,
                None => {
                    return Err(missing_attr("flag"));
                },
            };
            match n.attr("value") {
                Some(value) => Ok(
                    CompositeDependency::Flag(crate::schema::types::FlagDependency { flag, value }),
                ),
                None => Err(missing_attr("value")),
            }
        } else if strutil::str_eq(n.name.as_str(), "gameDependency") {
            match n.attr("version") {
                Some(version) => Ok(
                    CompositeDependency::Game(crate::schema::types::VersionDependency { version }),
                ),
                None => Err(missing_attr("version")),
            }
        } else if strutil::str_eq(n.name.as_str(), "fommDependency") {
            match n.attr("version") {
                Some(version) => Ok(
                    CompositeDependency::Fomm(crate::schema::types::VersionDependency { version }),
                ),
                None => Err(missing_attr("version")),
            }
        } else if strutil::str_eq(n.name.as_str(), "dependencies") {
            match ModuleDependency::from_node(n) {
                Ok(m) => Ok(CompositeDependency::Dependency(m)),
                Err(e) => Err(e),
            }
        } else {
            Err(FormatError::BadValue(n.name.clone()))
        }
    }
}

impl ModuleDependency {
    /// Reads a dependency group element: `operator` over its children.
    pub fn from_node(n: &XmlNode) -> (r: Result<ModuleDependency, FormatError>)
        ensures
            rv(r) == mod_dep_spec(n@),
        decreases *n, 1int,
    {
        let t = match n.attr("operator") {
            Some(v) => v,
            None => {
                return Err(missing_attr("operator"));
            },
        };
        let operator = match operator_of(t.as_str()) {
            Some(op) => op,
            None => {
                return Err(bad_value("operator"));
            },
        };
        match parse_comp_children(n) {
            Ok(list) => {
                proof {
                    crate::schema::types::lemma_comp_forest_view(list@);
                    assert(crate::schema::types::comp_forest_view(list@) =~= list.deep_view());
                }
                Ok(ModuleDependency { operator, list })
            },
            Err(e) => Err(e),
        }
    }
}


/// What an `order` attribute yields: Ascending when absent, its value
/// when the text spells an order, an error otherwise.
pub open spec fn order_attr_spec(n: XmlNodeV) -> Result<OrderEnum, FormatErrorV> {
    match find_attr(n.attrs, "order"@) {
        None => Ok(OrderEnum::Ascending),
        Some(t) => match order_of_text(t) {
            Some(o) => Ok(o),
            None => Err(FormatErrorV::BadValue("order"@)),
        },
    }
}

/// Parses an `order` attribute that defaults to Ascending.
pub fn order_attr(n: &XmlNode) -> (r: Result<OrderEnum, FormatError>)
    ensures
        rv(r) == order_attr_spec(n@),
{
    match n.attr("order") {
        None => Ok(OrderEnum::Ascending),
        Some(t) => match order_of(t.as_str()) {
            Some(o) => Ok(o),
            None => Err(bad_value("order")),
        },
    }
}

/// What a `pattern` element inside a `dependencyType` yields: its
/// required `dependencies` and `type` children.
pub open spec fn dep_pattern_spec(n: XmlNodeV) -> Result<DependencyPatternV, FormatErrorV> {
    match find_child(n.children, "dependencies"@) {
        None => Err(FormatErrorV::MissingElement("dependencies"@)),
        Some(d) => match comp_dep_spec(d) {
            Err(e) => Err(e),
            Ok(dep) => match find_child(n.children, "type"@) {
                None => Err(FormatErrorV::MissingElement("type"@)),
                Some(t) => match plugin_type_spec(t) {
                    Err(e) => Err(e),
                    Ok(pt) => Ok(DependencyPatternV { dependencies: dep, typ: pt }),
                },
            },
        },
    }
}

impl DependencyPattern {
    /// Reads a `pattern` element of a `dependencyType`.
    pub fn from_node(n: &XmlNode) -> (r: Result<DependencyPattern, FormatError>)
        ensures
            rv(r) == dep_pattern_spec(n@),
    {
        let d = match n.child("dependencies") {
            Some(d) => d,
            None => {
                return Err(missing_elem("dependencies"));
            },
        };
        let dependencies = match CompositeDependency::from_node(d) {
            Ok(dep) => dep,
            Err(e) => {
                return Err(e);
            },
        };
        let t = match n.child("type") {
            Some(t) => t,
            None => {
                return Err(missing_elem("type"));
            },
        };
        match PluginType::from_node(t) {
            Ok(typ) => Ok(DependencyPattern { dependencies, typ }),
            Err(e) => Err(e),
        }
    }
}

/// What a `patterns` element inside a `dependencyType` yields: its
/// `pattern` children.
pub open spec fn dep_pattern_list_spec(n: XmlNodeV) -> Result<DependencyPatternListV, FormatErrorV> {
    match parse_named(n.children, "pattern"@, |c: XmlNodeV| dep_pattern_spec(c)) {
        Ok(vs) => Ok(DependencyPatternListV { pattern: vs }),
        Err(e) => Err(e),
    }
}

impl DependencyPatternList {
    /// Reads a `patterns` element of a `dependencyType`.
    pub fn from_node(n: &XmlNode) -> (r: Result<DependencyPatternList, FormatError>)
        ensures
            rv(r) == dep_pattern_list_spec(n@),
    {
        let ghost cs = n@.children;
        let ghost f = |c: XmlNodeV| dep_pattern_spec(c);
        proof {
            lemma_forest_view(n.children@);
        }
        let mut out: Vec<DependencyPattern> = Vec::new();
        proof {
            assert(out.deep_view() =~= Seq::<DependencyPatternV>::empty());
            assert(cs.subrange(0, 0) =~= Seq::<XmlNodeV>::empty());
        }
        let mut i: usize = 0;
        while i < n.children.len()
            invariant
                0 <= i <= n.children.len(),
                cs == n@.children,
                cs.len() == n.children@.len(),
                forall|j: int| 0 <= j < cs.len() ==> cs[j] == node_view(n.children@[j]),
                f == (|c: XmlNodeV| dep_pattern_spec(c)),
                parse_named(cs.subrange(0, i as int), "pattern"@, f) == Ok::<_, FormatErrorV>(
                    out.deep_view(),
                ),
            decreases n.children.len() - i,
        {
            let c = &n.children[i];
            proof {
                assert(cs.subrange(0, i + 1).drop_last() =~= cs.subrange(0, i as int));
                assert(cs.subrange(0, i + 1).last() == cs[i as int]);
            }
            if strutil::str_eq(c.name.as_str(), "pattern") {
                match DependencyPattern::from_node(c) {
                    Ok(v) => {
                        let ghost prev = out;
                        out.push(v);
                        proof {
                            crate::lemma_deep_view_push(prev, out, v);
                        }
                    },
                    Err(e) => {
                        proof {
                            lemma_parse_named_err(cs, "pattern"@, f, i + 1);
                        }
                        return Err(e);
                    },
                }
            }
            i = i + 1;
        }
        proof {
            assert(cs.subrange(0, cs.len() as int) =~= cs);
        }
        Ok(DependencyPatternList { pattern: out })
    }
}

/// What a `dependencyType` element yields: its required `default_type`
/// and `patterns` children.
pub open spec fn dep_plugin_type_spec(n: XmlNodeV) -> Result<DependencyPluginTypeV, FormatErrorV> {
    match find_child(n.children, "default_type"@) {
        None => Err(FormatErrorV::MissingElement("default_type"@)),
        Some(dt) => match plugin_type_spec(dt) {
            Err(e) => Err(e),
            Ok(d) => match find_child(n.children, "patterns"@) {
                None => Err(FormatErrorV::MissingElement("patterns"@)),
                Some(ps) => match dep_pattern_list_spec(ps) {
                    Err(e) => Err(e),
                    Ok(p) => Ok(DependencyPluginTypeV { default_type: d, patterns: p }),
                },
            },
        },
    }
}

impl DependencyPluginType {
    /// Reads a `dependencyType` element.
    pub fn from_node(n: &XmlNode) -> (r: Result<DependencyPluginType, FormatError>)
        ensures
            rv(r) == dep_plugin_type_spec(n@),
    {
        let dt = match n.child("default_type") {
            Some(dt) => dt,
            None => {
                return Err(missing_elem("default_type"));
            },
        };
        let default_type = match PluginType::from_node(dt) {
            Ok(d) => d,
            Err(e) => {
                return Err(e);
            },
        };
        let ps = match n.child("patterns") {
            Some(ps) => ps,
            None => {
                return Err(missing_elem("patterns"));
            },
        };
        match DependencyPatternList::from_node(ps) {
            Ok(patterns) => Ok(DependencyPluginType { default_type, patterns }),
            Err(e) => Err(e),
        }
    }
}

/// What a `typeDescriptor` element yields: its first child element,
/// either a `dependencyType` or a bare `type`; no child is an error,
/// another tag is rejected.
pub open spec fn descriptor_spec(n: XmlNodeV) -> Result<PluginTypeDescriptorV, FormatErrorV> {
    if n.children.len() == 0 {
        Err(FormatErrorV::MissingElement("typeDescriptor"@))
    } else {
        let c = n.children[0];
        if c.name == "dependencyType"@ {
            match dep_plugin_type_spec(c) {
                Ok(d) => Ok(
                    PluginTypeDescriptorV { value: PluginTypeDescriptorEnumV::DependencyType(d) },
                ),
                Err(e) => Err(e),
            }
        } else if c.name == "type"@ {
            match plugin_type_spec(c) {
                Ok(p) => Ok(PluginTypeDescriptorV { value: PluginTypeDescriptorEnumV::PluginType(p) }),
                Err(e) => Err(e),
            }
        } else {
            Err(FormatErrorV::BadValue(c.name))
        }
    }
}

impl PluginTypeDescriptor {
    /// Reads a `typeDescriptor` element.
    pub fn from_node(n: &XmlNode) -> (r: Result<PluginTypeDescriptor, FormatError>)
        ensures
            rv(r) == descriptor_spec(n@),
    {
        proof {
            lemma_forest_view(n.children@);
        }
        if n.children.len() == 0 {
            return Err(missing_elem("typeDescriptor"));
        }
        let c = &n.children[0];
        if strutil::str_eq(c.name.as_str(), "dependencyType") {
            match DependencyPluginType::from_node(c) {
                Ok(d) => Ok(
                    PluginTypeDescriptor { value: PluginTypeDescriptorEnum::DependencyType(d) },
                ),
                Err(e) => Err(e),
            }
        } else if strutil::str_eq(c.name.as_str(), "type") {
            match PluginType::from_node(c) {
                Ok(p) => Ok(PluginTypeDescriptor { value: PluginTypeDescriptorEnum::PluginType(p) }),
                Err(e) => Err(e),
            }
        } else {
            Err(FormatError::BadValue(c.name.clone()))
        }
    }
}

/// What a `plugin` element yields: its required `name` attribute and
/// `description` child, and its optional `image`, `files`,
/// `conditionFlags` and `typeDescriptor` children.
pub open spec fn plugin_spec(n: XmlNodeV) -> Result<PluginV, FormatErrorV> {
    match find_attr(n.attrs, "name"@) {
        None => Err(FormatErrorV::MissingAttribute("name"@)),
        Some(nm) => match find_child(n.children, "description"@) {
            None => Err(FormatErrorV::MissingElement("description"@)),
            Some(dsc) => match opt_image_spec(n) {
                Err(e) => Err(e),
                Ok(image) => match opt_files_spec(n) {
                    Err(e) => Err(e),
                    Ok(files) => match opt_flags_spec(n) {
                        Err(e) => Err(e),
                        Ok(condition_flags) => match opt_descriptor_spec(n) {
                            Err(e) => Err(e),
                            Ok(type_descriptor) => Ok(
                                PluginV {
                                    name: nm,
                                    description: dsc.text,
                                    image,
                                    files,
                                    condition_flags,
                                    type_descriptor,
                                },
                            ),
                        },
                    },
                },
            },
        },
    }
}

/// What an optional `image` child yields.
pub open spec fn opt_image_spec(n: XmlNodeV) -> Result<Option<ImageV>, FormatErrorV> {
    match find_child(n.children, "image"@) {
        None => Ok(None),
        Some(c) => match image_spec(c) {
            Ok(v) => Ok(Some(v)),
            Err(e) => Err(e),
        },
    }
}

/// What an optional `files` child yields.
pub open spec fn opt_files_spec(n: XmlNodeV) -> Result<Option<FileListV>, FormatErrorV> {
    match find_child(n.children, "files"@) {
        None => Ok(None),
        Some(c) => match file_list_spec(c) {
            Ok(v) => Ok(Some(v)),
            Err(e) => Err(e),
        },
    }
}

/// What an optional `conditionFlags` child yields.
pub open spec fn opt_flags_spec(n: XmlNodeV) -> Result<Option<ConditionFlagListV>, FormatErrorV> {
    match find_child(n.children, "conditionFlags"@) {
        None => Ok(None),
        Some(c) => match condition_flags_spec(c) {
            Ok(v) => Ok(Some(v)),
            Err(e) => Err(e),
        },
    }
}

/// What an optional `typeDescriptor` child yields.
pub open spec fn opt_descriptor_spec(n: XmlNodeV) -> Result<
    Option<PluginTypeDescriptorV>,
    FormatErrorV,
> {
    match find_child(n.children, "typeDescriptor"@) {
        None => Ok(None),
        Some(c) => match descriptor_spec(c) {
            Ok(v) => Ok(Some(v)),
            Err(e) => Err(e),
        },
    }
}

impl Plugin {
    /// Reads a `plugin` element.
    pub fn from_node(n: &XmlNode) -> (r: Result<Plugin, FormatError>)
        ensures
            rv(r) == plugin_spec(n@),
    {
        let name = match n.attr("name") {
            Some(v) => v,
            None => {
                return Err(missing_attr("name"));
            },
        };
        let description = match n.child("description") {
            Some(c) => c.text.clone(),
            None => {
                return Err(missing_elem("description"));
            },
        };
        let image = match n.child("image") {
            None => None,
            Some(c) => match Image::from_node(c) {
                Ok(v) => Some(v),
                Err(e) => {
                    return Err(e);
                },
            },
        };
        let files = match n.child("files") {
            None => None,
            Some(c) => match FileList::from_node(c) {
                Ok(v) => Some(v),
                Err(e) => {
                    return Err(e);
                },
            },
        };
        let condition_flags = match n.child("conditionFlags") {
            None => None,
            Some(c) => match ConditionFlagList::from_node(c) {
                Ok(v) => Some(v),
                Err(e) => {
                    return Err(e);
                },
            },
        };
        let type_descriptor = match n.child("typeDescriptor") {
            None => None,
            Some(c) => match PluginTypeDescriptor::from_node(c) {
                Ok(v) => Some(v),
                Err(e) => {
                    return Err(e);
                },
            },
        };
        Ok(Plugin { name, description, image, files, condition_flags, type_descriptor })
    }
}

/// What a `plugins` element yields: its order and its `plugin`
/// children.
pub open spec fn plugin_list_spec(n: XmlNodeV) -> Result<PluginListV, FormatErrorV> {
    match order_attr_spec(n) {
        Err(e) => Err(e),
        Ok(order) => match parse_named(n.children, "plugin"@, |c: XmlNodeV| plugin_spec(c)) {
            Ok(vs) => Ok(PluginListV { order, plugin: vs }),
            Err(e) => Err(e),
        },
    }
}

impl PluginList {
    /// Reads a `plugins` element.
    pub fn from_node(n: &XmlNode) -> (r: Result<PluginList, FormatError>)
        ensures
            rv(r) == plugin_list_spec(n@),
    {
        let order = match order_attr(n) {
            Ok(o) => o,
            Err(e) => {
                return Err(e);
            },
        };
        let ghost cs = n@.children;
        let ghost f = |c: XmlNodeV| plugin_spec(c);
        proof {
            lemma_forest_view(n.children@);
        }
        let mut out: Vec<Plugin> = Vec::new();
        proof {
            assert(out.deep_view() =~= Seq::<PluginV>::empty());
            assert(cs.subrange(0, 0) =~= Seq::<XmlNodeV>::empty());
        }
        let mut i: usize = 0;
        while i < n.children.len()
            invariant
                0 <= i <= n.children.len(),
                cs == n@.children,
                cs.len() == n.children@.len(),
                forall|j: int| 0 <= j < cs.len() ==> cs[j] == node_view(n.children@[j]),
                f == (|c: XmlNodeV| plugin_spec(c)),
                order_attr_spec(n@) == Ok::<_, FormatErrorV>(order),
                parse_named(cs.subrange(0, i as int), "plugin"@, f) == Ok::<_, FormatErrorV>(
                    out.deep_view(),
                ),
            decreases n.children.len() - i,
        {
            let c = &n.children[i];
            proof {
                assert(cs.subrange(0, i + 1).drop_last() =~= cs.subrange(0, i as int));
                assert(cs.subrange(0, i + 1).last() == cs[i as int]);
            }
            if strutil::str_eq(c.name.as_str(), "plugin") {
                match Plugin::from_node(c) {
                    Ok(v) => {
                        let ghost prev = out;
                        out.push(v);
                        proof {
                            crate::lemma_deep_view_push(prev, out, v);
                        }
                    },
                    Err(e) => {
                        proof {
                            lemma_parse_named_err(cs, "plugin"@, f, i + 1);
                        }
                        return Err(e);
                    },
                }
            }
            i = i + 1;
        }
        proof {
            assert(cs.subrange(0, cs.len() as int) =~= cs);
        }
        Ok(PluginList { order, plugin: out })
    }
}


/// What a `group` element yields: its required `name` and `type`
/// attributes and its required `plugins` child.
pub open spec fn group_spec(n: XmlNodeV) -> Result<GroupV, FormatErrorV> {
    match find_attr(n.attrs, "name"@) {
        None => Err(FormatErrorV::MissingAttribute("name"@)),
        Some(nm) => match find_attr(n.attrs, "type"@) {
            None => Err(FormatErrorV::MissingAttribute("type"@)),
            Some(t) => match group_type_of_text(t) {
                None => Err(FormatErrorV::BadValue("type"@)),
                Some(gt) => match find_child(n.children, "plugins"@) {
                    None => Err(FormatErrorV::MissingElement("plugins"@)),
                    Some(pl) => match plugin_list_spec(pl) {
                        Ok(plugins) => Ok(GroupV { name: nm, typ: gt, plugins }),
                        Err(e) => Err(e),
                    },
                },
            },
        },
    }
}

impl Group {
    /// Reads a `group` element.
    pub fn from_node(n: &XmlNode) -> (r: Result<Group, FormatError>)
        ensures
            rv(r) == group_spec(n@),
    {
        let name = match n.attr("name") {
            Some(v) => v,
            None => {
                return Err(missing_attr("name"));
            },
        };
        let t = match n.attr("type") {
            Some(v) => v,
            None => {
                return Err(missing_attr("type"));
            },
        };
        let typ = match group_type_of(t.as_str()) {
            Some(g) => g,
            None => {
                return Err(bad_value("type"));
            },
        };
        let pl = match n.child("plugins") {
            Some(c) => c,
            None => {
                return Err(missing_elem("plugins"));
            },
        };
        match PluginList::from_node(pl) {
            Ok(plugins) => Ok(Group { name, typ, plugins }),
            Err(e) => Err(e),
        }
    }
}

/// What an `optionalFileGroups` element yields: its order and its
/// `group` children.
pub open spec fn group_list_spec(n: XmlNodeV) -> Result<GroupListV, FormatErrorV> {
    match order_attr_spec(n) {
        Err(e) => Err(e),
        Ok(order) => match parse_named(n.children, "group"@, |c: XmlNodeV| group_spec(c)) {
            Ok(vs) => Ok(GroupListV { order, group: vs }),
            Err(e) => Err(e),
        },
    }
}

impl GroupList {
    /// Reads an `optionalFileGroups` element.
    pub fn from_node(n: &XmlNode) -> (r: Result<GroupList, FormatError>)
        ensures
            rv(r) == group_list_spec(n@),
    {
        let order = match order_attr(n) {
            Ok(o) => o,
            Err(e) => {
                return Err(e);
            },
        };
        let ghost cs = n@.children;
        let ghost f = |c: XmlNodeV| group_spec(c);
        proof {
            lemma_forest_view(n.children@);
        }
        let mut out: Vec<Group> = Vec::new();
        proof {
            assert(out.deep_view() =~= Seq::<GroupV>::empty());
            assert(cs.subrange(0, 0) =~= Seq::<XmlNodeV>::empty());
        }
        let mut i: usize = 0;
        while i < n.children.len()
            invariant
                0 <= i <= n.children.len(),
                cs == n@.children,
                cs.len() == n.children@.len(),
                forall|j: int| 0 <= j < cs.len() ==> cs[j] == node_view(n.children@[j]),
                f == (|c: XmlNodeV| group_spec(c)),
                order_attr_spec(n@) == Ok::<_, FormatErrorV>(order),
                parse_named(cs.subrange(0, i as int), "group"@, f) == Ok::<_, FormatErrorV>(
                    out.deep_view(),
                ),
            decreases n.children.len() - i,
        {
            let c = &n.children[i];
            proof {
                assert(cs.subrange(0, i + 1).drop_last() =~= cs.subrange(0, i as int));
                assert(cs.subrange(0, i + 1).last() == cs[i as int]);
            }
            if strutil::str_eq(c.name.as_str(), "group") {
                match Group::from_node(c) {
                    Ok(v) => {
                        let ghost prev = out;
                        out.push(v);
                        proof {
                            crate::lemma_deep_view_push(prev, out, v);
                        }
                    },
                    Err(e) => {
                        proof {
                            lemma_parse_named_err(cs, "group"@, f, i + 1);
                        }
                        return Err(e);
                    },
                }
            }
            i = i + 1;
        }
        proof {
            assert(cs.subrange(0, cs.len() as int) =~= cs);
        }
        Ok(GroupList { order, group: out })
    }
}

/// What an `installStep` element yields: its required `name`
/// attribute, an optional `visible` child whose first element is a
/// dependency, and its required `optionalFileGroups` child.
pub open spec fn install_step_spec(n: XmlNodeV) -> Result<InstallStepV, FormatErrorV> {
    match find_attr(n.attrs, "name"@) {
        None => Err(FormatErrorV::MissingAttribute("name"@)),
        Some(nm) => match visible_spec(n) {
            Err(e) => Err(e),
            Ok(visible) => match find_child(n.children, "optionalFileGroups"@) {
                None => Err(FormatErrorV::MissingElement("optionalFileGroups"@)),
                Some(g) => match group_list_spec(g) {
                    Ok(groups) => Ok(
                        InstallStepV { name: nm, visible, optional_file_groups: groups },
                    ),
                    Err(e) => Err(e),
                },
            },
        },
    }
}

/// What an optional `visible` child yields: the dependency its first
/// element child denotes; an empty `visible` is an error.
pub open spec fn visible_spec(n: XmlNodeV) -> Result<Option<CompositeDependencyV>, FormatErrorV> {
    match find_child(n.children, "visible"@) {
        None => Ok(None),
        Some(v) => if v.children.len() == 0 {
            Err(FormatErrorV::MissingElement("visible"@))
        } else {
            match comp_dep_spec(v.children[0]) {
                Ok(d) => Ok(Some(d)),
                Err(e) => Err(e),
            }
        },
    }
}

impl InstallStep {
    /// Reads an `installStep` element.
    pub fn from_node(n: &XmlNode) -> (r: Result<InstallStep, FormatError>)
        ensures
            rv(r) == install_step_spec(n@),
    {
        let name = match n.attr("name") {
            Some(v) => v,
            None => {
                return Err(missing_attr("name"));
            },
        };
        let visible = match n.child("visible") {
            None => None,
            Some(v) => {
                proof {
                    lemma_forest_view(v.children@);
                }
                if v.children.len() == 0 {
                    return Err(missing_elem("visible"));
                }
                match CompositeDependency::from_node(&v.children[0]) {
                    Ok(d) => Some(d),
                    Err(e) => {
                        return Err(e);
                    },
                }
            },
        };
        let g = match n.child("optionalFileGroups") {
            Some(c) => c,
            None => {
                return Err(missing_elem("optionalFileGroups"));
            },
        };
        match GroupList::from_node(g) {
            Ok(groups) => Ok(InstallStep { name, visible, optional_file_groups: groups }),
            Err(e) => Err(e),
        }
    }
}

/// What an `installSteps` element yields: its order and its
/// `installStep` children.
pub open spec fn step_list_spec(n: XmlNodeV) -> Result<StepListV, FormatErrorV> {
    match order_attr_spec(n) {
        Err(e) => Err(e),
        Ok(order) => match parse_named(n.children, "installStep"@, |c: XmlNodeV| install_step_spec(c)) {
            Ok(vs) => Ok(StepListV { order, install_step: vs }),
            Err(e) => Err(e),
        },
    }
}

impl StepList {
    /// Reads an `installSteps` element.
    pub fn from_node(n: &XmlNode) -> (r: Result<StepList, FormatError>)
        ensures
            rv(r) == step_list_spec(n@),
    {
        let order = match order_attr(n) {
            Ok(o) => o,
            Err(e) => {
                return Err(e);
            },
        };
        let ghost cs = n@.children;
        let ghost f = |c: XmlNodeV| install_step_spec(c);
        proof {
            lemma_forest_view(n.children@);
        }
        let mut out: Vec<InstallStep> = Vec::new();
        proof {
            assert(out.deep_view() =~= Seq::<InstallStepV>::empty());
            assert(cs.subrange(0, 0) =~= Seq::<XmlNodeV>::empty());
        }
        let mut i: usize = 0;
        while i < n.children.len()
            invariant
                0 <= i <= n.children.len(),
                cs == n@.children,
                cs.len() == n.children@.len(),
                forall|j: int| 0 <= j < cs.len() ==> cs[j] == node_view(n.children@[j]),
                f == (|c: XmlNodeV| install_step_spec(c)),
                order_attr_spec(n@) == Ok::<_, FormatErrorV>(order),
                parse_named(cs.subrange(0, i as int), "installStep"@, f) == Ok::<_, FormatErrorV>(
                    out.deep_view(),
                ),
            decreases n.children.len() - i,
        {
            let c = &n.children[i];
            proof {
                assert(cs.subrange(0, i + 1).drop_last() =~= cs.subrange(0, i as int));
                assert(cs.subrange(0, i + 1).last() == cs[i as int]);
            }
            if strutil::str_eq(c.name.as_str(), "installStep") {
                match InstallStep::from_node(c) {
                    Ok(v) => {
                        let ghost prev = out;
                        out.push(v);
                        proof {
                            crate::lemma_deep_view_push(prev, out, v);
                        }
                    },
                    Err(e) => {
                        proof {
                            lemma_parse_named_err(cs, "installStep"@, f, i + 1);
                        }
                        return Err(e);
                    },
                }
            }
            i = i + 1;
        }
        proof {
            assert(cs.subrange(0, cs.len() as int) =~= cs);
        }
        Ok(StepList { order, install_step: out })
    }
}

/// What a `pattern` element inside `conditionalFileInstalls` yields:
/// its required `dependencies` and `files` children.
pub open spec fn cond_pattern_spec(n: XmlNodeV) -> Result<ConditionalInstallPatternV, FormatErrorV> {
    match find_child(n.children, "dependencies"@) {
        None => Err(FormatErrorV::MissingElement("dependencies"@)),
        Some(d) => match comp_dep_spec(d) {
            Err(e) => Err(e),
            Ok(dep) => match find_child(n.children, "files"@) {
                None => Err(FormatErrorV::MissingElement("files"@)),
                Some(fl) => match file_list_spec(fl) {
                    Ok(files) => Ok(ConditionalInstallPatternV { dependencies: dep, files }),
                    Err(e) => Err(e),
                },
            },
        },
    }
}

impl ConditionalInstallPattern {
    /// Reads a `pattern` element of `conditionalFileInstalls`.
    pub fn from_node(n: &XmlNode) -> (r: Result<ConditionalInstallPattern, FormatError>)
        ensures
            rv(r) == cond_pattern_spec(n@),
    {
        let d = match n.child("dependencies") {
            Some(c) => c,
            None => {
                return Err(missing_elem("dependencies"));
            },
        };
        let dependencies = match CompositeDependency::from_node(d) {
            Ok(dep) => dep,
            Err(e) => {
                return Err(e);
            },
        };
        let fl = match n.child("files") {
            Some(c) => c,
            None => {
                return Err(missing_elem("files"));
            },
        };
        match FileList::from_node(fl) {
            Ok(files) => Ok(ConditionalInstallPattern { dependencies, files }),
            Err(e) => Err(e),
        }
    }
}

/// What a `patterns` element inside `conditionalFileInstalls` yields:
/// its `pattern` children.
pub open spec fn cond_pattern_list_spec(n: XmlNodeV) -> Result<
    ConditionalInstallPatternListV,
    FormatErrorV,
> {
    match parse_named(n.children, "pattern"@, |c: XmlNodeV| cond_pattern_spec(c)) {
        Ok(vs) => Ok(ConditionalInstallPatternListV { pattern: vs }),
        Err(e) => Err(e),
    }
}

impl ConditionalInstallPatternList {
    /// Reads a `patterns` element of `conditionalFileInstalls`.
    pub fn from_node(n: &XmlNode) -> (r: Result<ConditionalInstallPatternList, FormatError>)
        ensures
            rv(r) == cond_pattern_list_spec(n@),
    {
        let ghost cs = n@.children;
        let ghost f = |c: XmlNodeV| cond_pattern_spec(c);
        proof {
            lemma_forest_view(n.children@);
        }
        let mut out: Vec<ConditionalInstallPattern> = Vec::new();
        proof {
            assert(out.deep_view() =~= Seq::<ConditionalInstallPatternV>::empty());
            assert(cs.subrange(0, 0) =~= Seq::<XmlNodeV>::empty());
        }
        let mut i: usize = 0;
        while i < n.children.len()
            invariant
                0 <= i <= n.children.len(),
                cs == n@.children,
                cs.len() == n.children@.len(),
                forall|j: int| 0 <= j < cs.len() ==> cs[j] == node_view(n.children@[j]),
                f == (|c: XmlNodeV| cond_pattern_spec(c)),
                parse_named(cs.subrange(0, i as int), "pattern"@, f) == Ok::<_, FormatErrorV>(
                    out.deep_view(),
                ),
            decreases n.children.len() - i,
        {
            let c = &n.children[i];
            proof {
                assert(cs.subrange(0, i + 1).drop_last() =~= cs.subrange(0, i as int));
                assert(cs.subrange(0, i + 1).last() == cs[i as int]);
            }
            if strutil::str_eq(c.name.as_str(), "pattern") {
                match ConditionalInstallPattern::from_node(c) {
                    Ok(v) => {
                        let ghost prev = out;
                        out.push(v);
                        proof {
                            crate::lemma_deep_view_push(prev, out, v);
                        }
                    },
                    Err(e) => {
                        proof {
                            lemma_parse_named_err(cs, "pattern"@, f, i + 1);
                        }
                        return Err(e);
                    },
                }
            }
            i = i + 1;
        }
        proof {
            assert(cs.subrange(0, cs.len() as int) =~= cs);
        }
        Ok(ConditionalInstallPatternList { pattern: out })
    }
}

/// What a `conditionalFileInstalls` element yields: its required
/// `patterns` child.
pub open spec fn cond_file_install_spec(n: XmlNodeV) -> Result<
    ConditionalFileInstallListV,
    FormatErrorV,
> {
    match find_child(n.children, "patterns"@) {
        None => Err(FormatErrorV::MissingElement("patterns"@)),
        Some(ps) => match cond_pattern_list_spec(ps) {
            Ok(patterns) => Ok(ConditionalFileInstallListV { patterns }),
            Err(e) => Err(e),
        },
    }
}

impl ConditionalFileInstallList {
    /// Reads a `conditionalFileInstalls` element.
    pub fn from_node(n: &XmlNode) -> (r: Result<ConditionalFileInstallList, FormatError>)
        ensures
            rv(r) == cond_file_install_spec(n@),
    {
        let ps = match n.child("patterns") {
            Some(c) => c,
            None => {
                return Err(missing_elem("patterns"));
            },
        };
        match ConditionalInstallPatternList::from_node(ps) {
            Ok(patterns) => Ok(ConditionalFileInstallList { patterns }),
            Err(e) => Err(e),
        }
    }
}

/// What a `config` document yields: the required `moduleName` child's
/// text and the five optional top-level sections. The root element's
/// own name is not inspected.
pub open spec fn config_spec(n: XmlNodeV) -> Result<ConfigV, FormatErrorV> {
    match find_child(n.children, "moduleName"@) {
        None => Err(FormatErrorV::MissingElement("moduleName"@)),
        Some(mn) => match opt_header_image_spec(n) {
            Err(e) => Err(e),
            Ok(module_image) => match opt_mod_dep_spec(n) {
                Err(e) => Err(e),
                Ok(module_dependencies) => match opt_required_files_spec(n) {
                    Err(e) => Err(e),
                    Ok(required_install_files) => match opt_step_list_spec(n) {
                        Err(e) => Err(e),
                        Ok(install_steps) => match opt_cond_installs_spec(n) {
                            Err(e) => Err(e),
                            Ok(conditional_file_installs) => Ok(
                                ConfigV {
                                    module_name: mn.text,
                                    module_image,
                                    module_dependencies,
                                    required_install_files,
                                    install_steps,
                                    conditional_file_installs,
                                },
                            ),
                        },
                    },
                },
            },
        },
    }
}

/// What an optional `moduleImage` child yields.
pub open spec fn opt_header_image_spec(n: XmlNodeV) -> Result<Option<HeaderImageV>, FormatErrorV> {
    match find_child(n.children, "moduleImage"@) {
        None => Ok(None),
        Some(c) => match header_image_spec(c) {
            Ok(v) => Ok(Some(v)),
            Err(e) => Err(e),
        },
    }
}

/// What an optional `moduleDependencies` child yields.
pub open spec fn opt_mod_dep_spec(n: XmlNodeV) -> Result<Option<ModuleDependencyV>, FormatErrorV> {
    match find_child(n.children, "moduleDependencies"@) {
        None => Ok(None),
        Some(c) => match mod_dep_spec(c) {
            Ok(v) => Ok(Some(v)),
            Err(e) => Err(e),
        },
    }
}

/// What an optional `requiredInstallFiles` child yields.
pub open spec fn opt_required_files_spec(n: XmlNodeV) -> Result<Option<FileListV>, FormatErrorV> {
    match find_child(n.children, "requiredInstallFiles"@) {
        None => Ok(None),
        Some(c) => match file_list_spec(c) {
            Ok(v) => Ok(Some(v)),
            Err(e) => Err(e),
        },
    }
}

/// What an optional `installSteps` child yields.
pub open spec fn opt_step_list_spec(n: XmlNodeV) -> Result<Option<StepListV>, FormatErrorV> {
    match find_child(n.children, "installSteps"@) {
        None => Ok(None),
        Some(c) => match step_list_spec(c) {
            Ok(v) => Ok(Some(v)),
            Err(e) => Err(e),
        },
    }
}

/// What an optional `conditionalFileInstalls` child yields.
pub open spec fn opt_cond_installs_spec(n: XmlNodeV) -> Result<
    Option<ConditionalFileInstallListV>,
    FormatErrorV,
> {
    match find_child(n.children, "conditionalFileInstalls"@) {
        None => Ok(None),
        Some(c) => match cond_file_install_spec(c) {
            Ok(v) => Ok(Some(v)),
            Err(e) => Err(e),
        },
    }
}

impl Config {
    /// Reads a `config` document off its root element.
    pub fn from_node(n: &XmlNode) -> (r: Result<Config, FormatError>)
        ensures
            rv(r) == config_spec(n@),
    {
        let module_name = match n.child("moduleName") {
            Some(c) => c.text.clone(),
            None => {
                return Err(missing_elem("moduleName"));
            },
        };
        let module_image = match n.child("moduleImage") {
            None => None,
            Some(c) => match HeaderImage::from_node(c) {
                Ok(v) => Some(v),
                Err(e) => {
                    return Err(e);
                },
            },
        };
        let module_dependencies = match n.child("moduleDependencies") {
            None => None,
            Some(c) => match ModuleDependency::from_node(c) {
                Ok(v) => Some(v),
                Err(e) => {
                    return Err(e);
                },
            },
        };
        let required_install_files = match n.child("requiredInstallFiles") {
            None => None,
            Some(c) => match FileList::from_node(c) {
                Ok(v) => Some(v),
                Err(e) => {
                    return Err(e);
                },
            },
        };
        let install_steps = match n.child("installSteps") {
            None => None,
            Some(c) => match StepList::from_node(c) {
                Ok(v) => Some(v),
                Err(e) => {
                    return Err(e);
                },
            },
        };
        let conditional_file_installs = match n.child("conditionalFileInstalls") {
            None => None,
            Some(c) => match ConditionalFileInstallList::from_node(c) {
                Ok(v) => Some(v),
                Err(e) => {
                    return Err(e);
                },
            },
        };
        Ok(
            Config {
                module_name,
                module_image,
                module_dependencies,
                required_install_files,
                install_steps,
                conditional_file_installs,
            },
        )
    }

    /// Parses a `ModuleConfig.xml` document from text: tokenizes it
    /// into an element tree and reads the configuration off the root.
    pub fn from_text(s: &str) -> (r: Result<Config, FormatError>)
        ensures
            rv(r) == config_of_text(s@),
    {
        match crate::xmltree::parse_document(s) {
            Ok(root) => Config::from_node(&root),
            Err(e) => Err(e),
        }
    }
}

/// What a `fomod` metadata document yields: the texts of the optional
/// `Name`, `Description`, `Version`, `Author` and `Website` children,
/// and the number in the optional `CategoryId` child.
pub open spec fn info_spec(n: XmlNodeV) -> Result<InfoV, FormatErrorV> {
    match category_id_spec(n) {
        Err(e) => Err(e),
        Ok(category_id) => Ok(
            InfoV {
                name: child_text(n, "Name"@),
                description: child_text(n, "Description"@),
                version: child_text(n, "Version"@),
                author: child_text(n, "Author"@),
                website: child_text(n, "Website"@),
                category_id,
            },
        ),
    }
}

/// The text of the child with the given name, if it is present.
pub open spec fn child_text(n: XmlNodeV, name: Seq<char>) -> Option<Seq<char>> {
    match find_child(n.children, name) {
        None => None,
        Some(c) => Some(c.text),
    }
}

/// What the optional `CategoryId` child yields: the number its trimmed
/// text denotes, or an error when the text is no number.
pub open spec fn category_id_spec(n: XmlNodeV) -> Result<Option<usize>, FormatErrorV> {
    match find_child(n.children, "CategoryId"@) {
        None => Ok(None),
        Some(c) => match strutil::parse_usize_spec(strutil::xml_trim(c.text)) {
            Some(v) => Ok(Some(v)),
            None => Err(FormatErrorV::BadValue("CategoryId"@)),
        },
    }
}

impl Info {
    /// Reads an `info.xml` document off its root element.
    pub fn from_node(n: &XmlNode) -> (r: Result<Info, FormatError>)
        ensures
            rv(r) == info_spec(n@),
    {
        let category_id = match n.child("CategoryId") {
            None => None,
            Some(c) => {
                let t = strutil::xml_trim_exec(c.text.as_str());
                match strutil::parse_usize(t.as_str()) {
                    Some(v) => Some(v),
                    None => {
                        return Err(bad_value("CategoryId"));
                    },
                }
            },
        };
        let name = match n.child("Name") {
            Some(c) => Some(c.text.clone()),
            None => None,
        };
        let description = match n.child("Description") {
            Some(c) => Some(c.text.clone()),
            None => None,
        };
        let version = match n.child("Version") {
            Some(c) => Some(c.text.clone()),
            None => None,
        };
        let author = match n.child("Author") {
            Some(c) => Some(c.text.clone()),
            None => None,
        };
        let website = match n.child("Website") {
            Some(c) => Some(c.text.clone()),
            None => None,
        };
        Ok(Info { name, description, version, author, website, category_id })
    }

    /// Parses an `info.xml` document from text: tokenizes it into an
    /// element tree and reads the metadata off the root.
    pub fn from_text(s: &str) -> (r: Result<Info, FormatError>)
        ensures
            rv(r) == info_of_text(s@),
    {
        match crate::xmltree::parse_document(s) {
            Ok(root) => Info::from_node(&root),
            Err(e) => Err(e),
        }
    }
}


/// The grammar is deterministic: any two configuration results it
/// admits for one element tree are equal.
pub proof fn lemma_config_parse_deterministic(
    n: XmlNodeV,
    r1: Result<ConfigV, FormatErrorV>,
    r2: Result<ConfigV, FormatErrorV>,
)
    requires
        r1 == config_spec(n),
        r2 == config_spec(n),
    ensures
        r1 == r2,
{
}

/// The metadata grammar is deterministic in the same sense.
pub proof fn lemma_info_parse_deterministic(
    n: XmlNodeV,
    r1: Result<InfoV, FormatErrorV>,
    r2: Result<InfoV, FormatErrorV>,
)
    requires
        r1 == info_spec(n),
        r2 == info_spec(n),
    ensures
        r1 == r2,
{
}


/// What parsing a whole `ModuleConfig.xml` text yields: the
/// configuration read off the document tree the tokenizer gives, or
/// the first error of either stage.
pub open spec fn config_of_text(s: Seq<char>) -> Result<ConfigV, FormatErrorV> {
    match crate::xmltree::doc_of(s) {
        Ok(n) => config_spec(n),
        Err(e) => Err(e),
    }
}

/// What parsing a whole `info.xml` text yields.
pub open spec fn info_of_text(s: Seq<char>) -> Result<InfoV, FormatErrorV> {
    match crate::xmltree::doc_of(s) {
        Ok(n) => info_spec(n),
        Err(e) => Err(e),
    }
}

/// Parsing a configuration text is deterministic: any two results the
/// contract admits for one text are equal, so parsing the same
/// document twice yields equal values.
pub proof fn lemma_config_text_deterministic(
    s: Seq<char>,
    r1: Result<ConfigV, FormatErrorV>,
    r2: Result<ConfigV, FormatErrorV>,
)
    requires
        r1 == config_of_text(s),
        r2 == config_of_text(s),
    ensures
        r1 == r2,
{
}

/// Parsing a metadata text is deterministic in the same sense.
pub proof fn lemma_info_text_deterministic(
    s: Seq<char>,
    r1: Result<InfoV, FormatErrorV>,
    r2: Result<InfoV, FormatErrorV>,
)
    requires
        r1 == info_of_text(s),
        r2 == info_of_text(s),
    ensures
        r1 == r2,
{
}

} // verus!
