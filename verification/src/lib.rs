//! Parses FOMOD mod-installer configuration documents (`info.xml` and
//! `ModuleConfig.xml`) into a schema-faithful model, and normalizes
//! that model into an installer-friendly form: optional wrappers
//! collapsed into plain collections, order and operator attributes
//! made explicit as tagged variants, and defaults applied.
use vstd::prelude::*;

pub mod error;
pub mod order;
pub mod schema;
pub mod strutil;
pub mod xmlio;
pub mod xmltree;

pub use crate::error::FormatError;
pub use crate::order::{Duplicable, OrderEnum, OrderEnumV, Sortable};
pub use crate::schema::types::{
    FileDependency, FileType, FlagDependency, HeaderImage, PluginTypeEnum, SetConditionFlag,
    VersionDependency,
};
pub use crate::schema::Info;

use crate::schema::types as schema_types;
use crate::schema::types::{
    FileDependencyV, FileTypeV, FlagDependencyV, HeaderImageV, SetConditionFlagV,
    VersionDependencyV,
};

verus! {

/// Pushing onto a vector appends to its shadow.
pub proof fn lemma_deep_view_push<T: DeepView>(v1: Vec<T>, v2: Vec<T>, x: T)
    requires
        v2@ == v1@.push(x),
    ensures
        v2.deep_view() =~= v1.deep_view().push(x.deep_view()),
{
}


/// Removing a vector's first element advances its shadow: what is
/// left is the next suffix of the original shadow.
pub proof fn lemma_remove_front_view<T: DeepView>(v1: Vec<T>, v2: Vec<T>, orig: Seq<T::V>, i: int)
    requires
        v1@.len() > 0,
        v2@ == v1@.remove(0),
        v1.deep_view() == orig.subrange(i, orig.len() as int),
        0 <= i < orig.len(),
    ensures
        v2.deep_view() =~= orig.subrange(i + 1, orig.len() as int),
{
    assert(v2@ =~= v1@.subrange(1, v1@.len() as int));
    assert(v2@.len() == v1@.len() - 1);
    assert(v1.deep_view().len() == v1@.len());
    assert(v2.deep_view().len() == v2@.len());
    assert(v1@.len() == orig.len() - i);
    assert forall|k: int| 0 <= k < v2@.len() implies v2.deep_view()[k] == orig.subrange(
        i + 1,
        orig.len() as int,
    )[k] by {
        assert(v2@[k] == v1@[k + 1]);
        assert(v2.deep_view()[k] == v2@[k].deep_view());
        assert(v1.deep_view()[k + 1] == v1@[k + 1].deep_view());
        assert(v1.deep_view()[k + 1] == orig.subrange(i, orig.len() as int)[k + 1]);
        assert(orig.subrange(i, orig.len() as int)[k + 1] == orig[i + 1 + k]);
        assert(orig.subrange(i + 1, orig.len() as int)[k] == orig[i + 1 + k]);
    }
}

/// A normalized dependency operator: the boolean connective together
/// with its ordered operands.
#[derive(Debug, PartialEq, Eq)]
pub enum DependencyOperator<T> {
    And(Vec<T>),
    Or(Vec<T>),
}

/// Shadow of the normalized `DependencyOperator`.
pub ghost enum DependencyOperatorV<T> {
    And(Seq<T>),
    Or(Seq<T>),
}

impl<T: DeepView> View for DependencyOperator<T> {
    type V = DependencyOperatorV<T::V>;

    open spec fn view(&self) -> DependencyOperatorV<T::V> {
        match self {
            DependencyOperator::And(v) => DependencyOperatorV::And(v.deep_view()),
            DependencyOperator::Or(v) => DependencyOperatorV::Or(v.deep_view()),
        }
    }
}

impl<T: DeepView> DeepView for DependencyOperator<T> {
    type V = DependencyOperatorV<T::V>;

    open spec fn deep_view(&self) -> DependencyOperatorV<T::V> {
        self.view()
    }
}

/// A normalized dependency tree node: structurally the schema's
/// composite dependency, with the operator group collapsed into
/// `DependencyOperator`.
#[derive(Debug, PartialEq, Eq)]
pub enum Dependency {
    File(FileDependency),
    Flag(FlagDependency),
    Game(VersionDependency),
    Fomm(VersionDependency),
    Dependency(DependencyOperator<Dependency>),
}

/// Shadow of the normalized `Dependency`.
pub ghost enum DependencyV {
    File(FileDependencyV),
    Flag(FlagDependencyV),
    Game(VersionDependencyV),
    Fomm(VersionDependencyV),
    Dependency(DependencyOperatorV<DependencyV>),
}

/// The shadow of a normalized dependency node, child-first.
pub open spec fn dep_view(d: Dependency) -> DependencyV
    decreases d,
{
    match d {
        Dependency::File(f) => DependencyV::File(f@),
        Dependency::Flag(f) => DependencyV::Flag(f@),
        Dependency::Game(v) => DependencyV::Game(v@),
        Dependency::Fomm(v) => DependencyV::Fomm(v@),
        Dependency::Dependency(op) => DependencyV::Dependency(
            match op {
                DependencyOperator::And(v) => DependencyOperatorV::And(dep_forest_view(v@)),
                DependencyOperator::Or(v) => DependencyOperatorV::Or(dep_forest_view(v@)),
            },
        ),
    }
}

/// The shadows of a sequence of normalized dependency nodes.
pub open spec fn dep_forest_view(s: Seq<Dependency>) -> Seq<DependencyV>
    decreases s,
{
    if s.len() == 0 {
        Seq::empty()
    } else {
        seq![dep_view(s[0])] + dep_forest_view(s.drop_first())
    }
}

/// `dep_forest_view` is the element-wise image of `dep_view`.
pub broadcast proof fn lemma_dep_forest_view(s: Seq<Dependency>)
    ensures
        (#[trigger] dep_forest_view(s)).len() == s.len(),
        forall|i: int| 0 <= i < s.len() ==> dep_forest_view(s)[i] == dep_view(s[i]),
    decreases s,
{
    if s.len() > 0 {
        lemma_dep_forest_view(s.drop_first());
    }
}

impl View for Dependency {
    type V = DependencyV;

    open spec fn view(&self) -> DependencyV {
        dep_view(*self)
    }
}

impl DeepView for Dependency {
    type V = DependencyV;

    open spec fn deep_view(&self) -> DependencyV {
        self.view()
    }
}

/// A selection-cardinality tag travelling with its payload.
#[derive(Debug, PartialEq, Eq)]
pub enum GroupType<T> {
    SelectAtLeastOne(T),
    SelectAtMostOne(T),
    SelectExactlyOne(T),
    SelectAll(T),
    SelectAny(T),
}

/// Shadow of the normalized `GroupType`.
pub ghost enum GroupTypeV<T> {
    SelectAtLeastOne(T),
    SelectAtMostOne(T),
    SelectExactlyOne(T),
    SelectAll(T),
    SelectAny(T),
}

impl<T: DeepView> View for GroupType<T> {
    type V = GroupTypeV<T::V>;

    open spec fn view(&self) -> GroupTypeV<T::V> {
        match self {
            GroupType::SelectAtLeastOne(t) => GroupTypeV::SelectAtLeastOne(t.deep_view()),
            GroupType::SelectAtMostOne(t) => GroupTypeV::SelectAtMostOne(t.deep_view()),
            GroupType::SelectExactlyOne(t) => GroupTypeV::SelectExactlyOne(t.deep_view()),
            GroupType::SelectAll(t) => GroupTypeV::SelectAll(t.deep_view()),
            GroupType::SelectAny(t) => GroupTypeV::SelectAny(t.deep_view()),
        }
    }
}

impl<T: DeepView> DeepView for GroupType<T> {
    type V = GroupTypeV<T::V>;

    open spec fn deep_view(&self) -> GroupTypeV<T::V> {
        self.view()
    }
}

/// A normalized plugin: the image collapsed to its bare path, file and
/// flag lists collapsed to plain, possibly empty vectors.
#[derive(Debug, PartialEq, Eq)]
pub struct Plugin {
    pub name: String,
    pub description: String,
    pub image: Option<String>,
    pub files: Vec<FileType>,
    pub condition_flags: Vec<SetConditionFlag>,
    pub type_descriptor: Option<PluginTypeDescriptorEnum>,
}

/// Shadow of the normalized `Plugin`.
pub ghost struct PluginV {
    pub name: Seq<char>,
    pub description: Seq<char>,
    pub image: Option<Seq<char>>,
    pub files: Seq<FileTypeV>,
    pub condition_flags: Seq<SetConditionFlagV>,
    pub type_descriptor: Option<PluginTypeDescriptorEnumV>,
}

impl View for Plugin {
    type V = PluginV;

    open spec fn view(&self) -> PluginV {
        PluginV {
            name: self.name@,
            description: self.description@,
            image: self.image.deep_view(),
            files: self.files.deep_view(),
            condition_flags: self.condition_flags.deep_view(),
            type_descriptor: self.type_descriptor.deep_view(),
        }
    }
}

impl DeepView for Plugin {
    type V = PluginV;

    open spec fn deep_view(&self) -> PluginV {
        self.view()
    }
}

/// A normalized type descriptor: either a static plugin type, or the
/// pattern rules of a dependency-decided type. The schema's fallback
/// `default_type` is not carried over: the normalized variant keeps
/// only the pattern list. That gap is a known limitation, stated here
/// rather than silently resolved, since consumers may depend on it.
#[derive(Debug, PartialEq, Eq)]
pub enum PluginTypeDescriptorEnum {
    DependencyType(Vec<DependencyPattern>),
    PluginType(PluginTypeEnum),
}

/// Shadow of the normalized `PluginTypeDescriptorEnum`.
pub ghost enum PluginTypeDescriptorEnumV {
    DependencyType(Seq<DependencyPatternV>),
    PluginType(PluginTypeEnum),
}

impl View for PluginTypeDescriptorEnum {
    type V = PluginTypeDescriptorEnumV;

    open spec fn view(&self) -> PluginTypeDescriptorEnumV {
        match self {
            PluginTypeDescriptorEnum::DependencyType(v) => PluginTypeDescriptorEnumV::DependencyType(
                v.deep_view(),
            ),
            PluginTypeDescriptorEnum::PluginType(t) => PluginTypeDescriptorEnumV::PluginType(*t),
        }
    }
}

impl DeepView for PluginTypeDescriptorEnum {
    type V = PluginTypeDescriptorEnumV;

    open spec fn deep_view(&self) -> PluginTypeDescriptorEnumV {
        self.view()
    }
}

/// A normalized dependency-to-type rule.
#[derive(Debug, PartialEq, Eq)]
pub struct DependencyPattern {
    pub dependencies: Dependency,
    pub typ: PluginTypeEnum,
}

/// Shadow of the normalized `DependencyPattern`.
pub ghost struct DependencyPatternV {
    pub dependencies: DependencyV,
    pub typ: PluginTypeEnum,
}

impl View for DependencyPattern {
    type V = DependencyPatternV;

    open spec fn view(&self) -> DependencyPatternV {
        DependencyPatternV { dependencies: dep_view(self.dependencies), typ: self.typ }
    }
}

impl DeepView for DependencyPattern {
    type V = DependencyPatternV;

    open spec fn deep_view(&self) -> DependencyPatternV {
        self.view()
    }
}

/// A normalized group: its name with the cardinality-tagged,
/// order-tagged plugins.
#[derive(Debug, PartialEq, Eq)]
pub struct Group {
    pub name: String,
    pub plugins: GroupType<OrderEnum<Plugin>>,
}

/// Shadow of the normalized `Group`.
pub ghost struct GroupV {
    pub name: Seq<char>,
    pub plugins: GroupTypeV<OrderEnumV<PluginV>>,
}

impl View for Group {
    type V = GroupV;

    open spec fn view(&self) -> GroupV {
        GroupV { name: self.name@, plugins: self.plugins.deep_view() }
    }
}

impl DeepView for Group {
    type V = GroupV;

    open spec fn deep_view(&self) -> GroupV {
        self.view()
    }
}

/// A normalized install step: its name, an optional visibility
/// dependency, and its order-tagged groups.
#[derive(Debug, PartialEq, Eq)]
pub struct InstallStep {
    pub name: String,
    pub visible: Option<Dependency>,
    pub optional_file_groups: OrderEnum<Group>,
}

/// Shadow of the normalized `InstallStep`.
pub ghost struct InstallStepV {
    pub name: Seq<char>,
    pub visible: Option<DependencyV>,
    pub optional_file_groups: OrderEnumV<GroupV>,
}

impl View for InstallStep {
    type V = InstallStepV;

    open spec fn view(&self) -> InstallStepV {
        InstallStepV {
            name: self.name@,
            visible: self.visible.deep_view(),
            optional_file_groups: self.optional_file_groups.deep_view(),
        }
    }
}

impl DeepView for InstallStep {
    type V = InstallStepV;

    open spec fn deep_view(&self) -> InstallStepV {
        self.view()
    }
}

/// A normalized conditional-install rule: a dependency tree paired
/// with the files it selects.
#[derive(Debug, PartialEq, Eq)]
pub struct ConditionalInstallPattern {
    pub dependencies: Dependency,
    pub files: Vec<FileType>,
}

/// Shadow of the normalized `ConditionalInstallPattern`.
pub ghost struct ConditionalInstallPatternV {
    pub dependencies: DependencyV,
    pub files: Seq<FileTypeV>,
}

impl View for ConditionalInstallPattern {
    type V = ConditionalInstallPatternV;

    open spec fn view(&self) -> ConditionalInstallPatternV {
        ConditionalInstallPatternV {
            dependencies: dep_view(self.dependencies),
            files: self.files.deep_view(),
        }
    }
}

impl DeepView for ConditionalInstallPattern {
    type V = ConditionalInstallPatternV;

    open spec fn deep_view(&self) -> ConditionalInstallPatternV {
        self.view()
    }
}

/// The normalized configuration: every collection-typed field is
/// non-optional and defaults to empty, the step list carries its order
/// tag, and the dependency tree carries its operators.
#[derive(Debug, PartialEq, Eq)]
pub struct Config {
    pub module_name: String,
    pub module_image: Option<HeaderImage>,
    pub module_dependencies: Option<DependencyOperator<Dependency>>,
    pub required_install_files: Vec<FileType>,
    pub install_steps: OrderEnum<InstallStep>,
    pub conditional_file_installs: Vec<ConditionalInstallPattern>,
}

/// Shadow of the normalized `Config`.
pub ghost struct ConfigV {
    pub module_name: Seq<char>,
    pub module_image: Option<HeaderImageV>,
    pub module_dependencies: Option<DependencyOperatorV<DependencyV>>,
    pub required_install_files: Seq<FileTypeV>,
    pub install_steps: OrderEnumV<InstallStepV>,
    pub conditional_file_installs: Seq<ConditionalInstallPatternV>,
}

impl View for Config {
    type V = ConfigV;

    open spec fn view(&self) -> ConfigV {
        ConfigV {
            module_name: self.module_name@,
            module_image: self.module_image.deep_view(),
            module_dependencies: self.module_dependencies.deep_view(),
            required_install_files: self.required_install_files.deep_view(),
            install_steps: self.install_steps.deep_view(),
            conditional_file_installs: self.conditional_file_installs.deep_view(),
        }
    }
}

impl DeepView for Config {
    type V = ConfigV;

    open spec fn deep_view(&self) -> ConfigV {
        self.view()
    }
}


impl FileType {
    /// An exact copy.
    pub fn duplicate(&self) -> (r: FileType)
        ensures
            r.deep_view() == self.deep_view(),
    {
        FileType {
            source: self.source.clone(),
            destination: match &self.destination {
                Some(d) => Some(d.clone()),
                None => None,
            },
            always_install: match &self.always_install {
                Some(a) => Some(a.clone()),
                None => None,
            },
            install_if_usable: self.install_if_usable,
            priority: self.priority,
        }
    }
}

impl SetConditionFlag {
    /// An exact copy.
    pub fn duplicate(&self) -> (r: SetConditionFlag)
        ensures
            r.deep_view() == self.deep_view(),
    {
        SetConditionFlag { name: self.name.clone(), flag_value: self.flag_value.clone() }
    }
}



impl Dependency {
    /// An exact copy of the dependency tree.
    pub fn duplicate(&self) -> (r: Dependency)
        ensures
            r.deep_view() == self.deep_view(),
        decreases *self,
    {
        match self {
            Dependency::File(f) => Dependency::File(
                FileDependency { file_name: f.file_name.clone(), state: f.state },
            ),
            Dependency::Flag(f) => Dependency::Flag(
                FlagDependency { flag: f.flag.clone(), value: f.value.clone() },
            ),
            Dependency::Game(v) => Dependency::Game(
                VersionDependency { version: v.version.clone() },
            ),
            Dependency::Fomm(v) => Dependency::Fomm(
                VersionDependency { version: v.version.clone() },
            ),
            Dependency::Dependency(op) => {
                broadcast use lemma_dep_forest_view;

                match op {
                    DependencyOperator::And(v) => {
                        let w = dup_dep_vec(v);
                        proof {
                            assert(dep_forest_view(w@) =~= w.deep_view());
                            assert(dep_forest_view(v@) =~= v.deep_view());
                        }
                        Dependency::Dependency(DependencyOperator::And(w))
                    },
                    DependencyOperator::Or(v) => {
                        let w = dup_dep_vec(v);
                        proof {
                            assert(dep_forest_view(w@) =~= w.deep_view());
                            assert(dep_forest_view(v@) =~= v.deep_view());
                        }
                        Dependency::Dependency(DependencyOperator::Or(w))
                    },
                }
            },
        }
    }
}

/// An element-wise copy of a vector of dependency trees. Kept apart
/// from `dup_vec`: the mutual recursion with `Dependency::duplicate`
/// carries this function's own decreases measure.
fn dup_dep_vec(src: &Vec<Dependency>) -> (r: Vec<Dependency>)
    ensures
        r.deep_view() == src.deep_view(),
    decreases *src,
{
    broadcast use lemma_dep_forest_view;

    let mut out: Vec<Dependency> = Vec::new();
    proof {
        assert(out.deep_view() =~= src.deep_view().subrange(0, 0));
    }
    let mut i: usize = 0;
    while i < src.len()
        invariant
            0 <= i <= src.len(),
            src.len() == src.deep_view().len(),
            out.deep_view() =~= src.deep_view().subrange(0, i as int),
        decreases src.len() - i,
    {
        let d = src[i].duplicate();
        let ghost prev = out;
        out.push(d);
        proof {
            lemma_deep_view_push(prev, out, d);
            assert(out.deep_view() =~= src.deep_view().subrange(0, i as int + 1));
        }
        i = i + 1;
    }
    proof {
        assert(src.deep_view().subrange(0, src.len() as int) =~= src.deep_view());
        assert(out.deep_view() =~= src.deep_view());
    }
    out
}

impl DependencyPattern {
    /// An exact copy.
    pub fn duplicate(&self) -> (r: DependencyPattern)
        ensures
            r.deep_view() == self.deep_view(),
    {
        DependencyPattern { dependencies: self.dependencies.duplicate(), typ: self.typ }
    }
}

impl PluginTypeDescriptorEnum {
    /// An exact copy.
    pub fn duplicate(&self) -> (r: PluginTypeDescriptorEnum)
        ensures
            r.deep_view() == self.deep_view(),
    {
        match self {
            PluginTypeDescriptorEnum::PluginType(t) => PluginTypeDescriptorEnum::PluginType(*t),
            PluginTypeDescriptorEnum::DependencyType(v) => PluginTypeDescriptorEnum::DependencyType(
                crate::order::dup_vec(v),
            ),
        }
    }
}

impl Plugin {
    /// An exact copy.
    pub fn duplicate(&self) -> (r: Plugin)
        ensures
            r.deep_view() == self.deep_view(),
    {
        Plugin {
            name: self.name.clone(),
            description: self.description.clone(),
            image: match &self.image {
                Some(p) => Some(p.clone()),
                None => None,
            },
            files: crate::order::dup_vec(&self.files),
            condition_flags: crate::order::dup_vec(&self.condition_flags),
            type_descriptor: match &self.type_descriptor {
                Some(t) => Some(t.duplicate()),
                None => None,
            },
        }
    }
}


impl Group {
    /// An exact copy.
    pub fn duplicate(&self) -> (r: Group)
        ensures
            r.deep_view() == self.deep_view(),
    {
        let plugins = match &self.plugins {
            GroupType::SelectAtLeastOne(o) => GroupType::SelectAtLeastOne(dup_plugin_order(o)),
            GroupType::SelectAtMostOne(o) => GroupType::SelectAtMostOne(dup_plugin_order(o)),
            GroupType::SelectExactlyOne(o) => GroupType::SelectExactlyOne(dup_plugin_order(o)),
            GroupType::SelectAll(o) => GroupType::SelectAll(dup_plugin_order(o)),
            GroupType::SelectAny(o) => GroupType::SelectAny(dup_plugin_order(o)),
        };
        Group { name: self.name.clone(), plugins }
    }
}

/// An exact copy of an order-tagged plugin payload.
fn dup_plugin_order(src: &OrderEnum<Plugin>) -> (r: OrderEnum<Plugin>)
    ensures
        r.deep_view() == src.deep_view(),
{
    match src {
        OrderEnum::Ascending(v) => OrderEnum::Ascending(crate::order::dup_vec(v)),
        OrderEnum::Explicit(v) => OrderEnum::Explicit(crate::order::dup_vec(v)),
        OrderEnum::Descending(v) => OrderEnum::Descending(crate::order::dup_vec(v)),
    }
}


impl InstallStep {
    /// An exact copy.
    pub fn duplicate(&self) -> (r: InstallStep)
        ensures
            r.deep_view() == self.deep_view(),
    {
        let optional_file_groups = match &self.optional_file_groups {
            OrderEnum::Ascending(v) => OrderEnum::Ascending(crate::order::dup_vec(v)),
            OrderEnum::Explicit(v) => OrderEnum::Explicit(crate::order::dup_vec(v)),
            OrderEnum::Descending(v) => OrderEnum::Descending(crate::order::dup_vec(v)),
        };
        InstallStep {
            name: self.name.clone(),
            visible: match &self.visible {
                Some(d) => Some(d.duplicate()),
                None => None,
            },
            optional_file_groups,
        }
    }
}

impl Duplicable for FileType {
    fn duplicate(&self) -> (r: Self) {
        FileType::duplicate(self)
    }
}

impl Duplicable for SetConditionFlag {
    fn duplicate(&self) -> (r: Self) {
        SetConditionFlag::duplicate(self)
    }
}

impl Duplicable for DependencyPattern {
    fn duplicate(&self) -> (r: Self) {
        DependencyPattern::duplicate(self)
    }
}

impl Duplicable for Plugin {
    fn duplicate(&self) -> (r: Self) {
        Plugin::duplicate(self)
    }
}

impl Duplicable for Group {
    fn duplicate(&self) -> (r: Self) {
        Group::duplicate(self)
    }
}

impl Duplicable for InstallStep {
    fn duplicate(&self) -> (r: Self) {
        InstallStep::duplicate(self)
    }
}

impl Sortable for Plugin {
    /// Plugins are ordered by name.
    open spec fn vkey(v: PluginV) -> Seq<char> {
        v.name
    }

    fn key_le(&self, other: &Self) -> (b: bool) {
        crate::strutil::str_lex_le(self.name.as_str(), other.name.as_str())
    }
}

impl Sortable for Group {
    /// Groups are ordered by name.
    open spec fn vkey(v: GroupV) -> Seq<char> {
        v.name
    }

    fn key_le(&self, other: &Self) -> (b: bool) {
        crate::strutil::str_lex_le(self.name.as_str(), other.name.as_str())
    }
}

impl Sortable for InstallStep {
    /// Install steps are ordered by name.
    open spec fn vkey(v: InstallStepV) -> Seq<char> {
        v.name
    }

    fn key_le(&self, other: &Self) -> (b: bool) {
        crate::strutil::str_lex_le(self.name.as_str(), other.name.as_str())
    }
}


/// The normalized form of a composite dependency: leaves carried over,
/// operator groups collapsed into `DependencyOperator`.
pub open spec fn norm_dep(c: schema_types::CompositeDependencyV) -> DependencyV
    decreases c,
{
    match c {
        schema_types::CompositeDependencyV::File(f) => DependencyV::File(f),
        schema_types::CompositeDependencyV::Flag(f) => DependencyV::Flag(f),
        schema_types::CompositeDependencyV::Game(v) => DependencyV::Game(v),
        schema_types::CompositeDependencyV::Fomm(v) => DependencyV::Fomm(v),
        schema_types::CompositeDependencyV::Dependency(m) => DependencyV::Dependency(
            norm_dep_op(m),
        ),
    }
}

/// The normalized form of a dependency group.
pub open spec fn norm_dep_op(m: schema_types::ModuleDependencyV) -> DependencyOperatorV<
    DependencyV,
>
    decreases m,
{
    match m.operator {
        schema_types::DependencyOperator::And => DependencyOperatorV::And(norm_dep_seq(m.list)),
        schema_types::DependencyOperator::Or => DependencyOperatorV::Or(norm_dep_seq(m.list)),
    }
}

/// The normalized forms of a sequence of composite dependencies.
pub open spec fn norm_dep_seq(s: Seq<schema_types::CompositeDependencyV>) -> Seq<DependencyV>
    decreases s,
{
    if s.len() == 0 {
        Seq::empty()
    } else {
        seq![norm_dep(s[0])] + norm_dep_seq(s.drop_first())
    }
}

/// `norm_dep_seq` is the element-wise image of `norm_dep`.
pub broadcast proof fn lemma_norm_dep_seq(s: Seq<schema_types::CompositeDependencyV>)
    ensures
        (#[trigger] norm_dep_seq(s)).len() == s.len(),
        forall|i: int| 0 <= i < s.len() ==> norm_dep_seq(s)[i] == norm_dep(s[i]),
    decreases s,
{
    if s.len() > 0 {
        lemma_norm_dep_seq(s.drop_first());
    }
}

/// The collapse of a possibly absent file list: a declared-absent list
/// and a declared-but-empty list both become the empty sequence.
pub open spec fn norm_files(fl: schema_types::FileListV) -> Seq<FileTypeV> {
    match fl.list {
        Some(v) => v,
        None => Seq::empty(),
    }
}

/// The collapse of an optional file-list element.
pub open spec fn norm_files_opt(fl: Option<schema_types::FileListV>) -> Seq<FileTypeV> {
    match fl {
        Some(f) => norm_files(f),
        None => Seq::empty(),
    }
}

/// The normalized form of a dependency-to-type rule.
pub open spec fn norm_dep_pattern(dp: schema_types::DependencyPatternV) -> DependencyPatternV {
    DependencyPatternV { dependencies: norm_dep(dp.dependencies), typ: dp.typ.name }
}

/// The normalized form of a type descriptor. The schema's fallback
/// `default_type` of a `dependencyType` is dropped here: only the
/// pattern list is carried over (see `PluginTypeDescriptorEnum` on
/// this known limitation).
pub open spec fn norm_descriptor(e: schema_types::PluginTypeDescriptorEnumV) -> PluginTypeDescriptorEnumV {
    match e {
        schema_types::PluginTypeDescriptorEnumV::DependencyType(dpt) => PluginTypeDescriptorEnumV::DependencyType(
            dpt.patterns.pattern.map_values(|dp: schema_types::DependencyPatternV| norm_dep_pattern(dp)),
        ),
        schema_types::PluginTypeDescriptorEnumV::PluginType(pt) => PluginTypeDescriptorEnumV::PluginType(
            pt.name,
        ),
    }
}

/// The normalized form of a plugin: image collapsed to its path, lists
/// collapsed to plain sequences.
pub open spec fn norm_plugin(p: schema_types::PluginV) -> PluginV {
    PluginV {
        name: p.name,
        description: p.description,
        image: match p.image {
            Some(i) => Some(i.path),
            None => None,
        },
        files: norm_files_opt(p.files),
        condition_flags: match p.condition_flags {
            Some(cfl) => cfl.flag,
            None => Seq::empty(),
        },
        type_descriptor: match p.type_descriptor {
            Some(td) => Some(norm_descriptor(td.value)),
            None => None,
        },
    }
}

/// The normalized form of an ordered plugin list.
pub open spec fn norm_plugin_list(pl: schema_types::PluginListV) -> OrderEnumV<PluginV> {
    match pl.order {
        schema_types::OrderEnum::Ascending => OrderEnumV::Ascending(
            pl.plugin.map_values(|p: schema_types::PluginV| norm_plugin(p)),
        ),
        schema_types::OrderEnum::Explicit => OrderEnumV::Explicit(
            pl.plugin.map_values(|p: schema_types::PluginV| norm_plugin(p)),
        ),
        schema_types::OrderEnum::Descending => OrderEnumV::Descending(
            pl.plugin.map_values(|p: schema_types::PluginV| norm_plugin(p)),
        ),
    }
}

/// The normalized form of a group: the cardinality tag travels with
/// the ordered plugins.
pub open spec fn norm_group(g: schema_types::GroupV) -> GroupV {
    GroupV { name: g.name, plugins: norm_group_type(g.typ, g.plugins) }
}

/// The cardinality tag wrapped around the normalized plugins.
pub open spec fn norm_group_type(
    t: schema_types::GroupType,
    pl: schema_types::PluginListV,
) -> GroupTypeV<OrderEnumV<PluginV>> {
    match t {
        schema_types::GroupType::SelectAtLeastOne => GroupTypeV::SelectAtLeastOne(
            norm_plugin_list(pl),
        ),
        schema_types::GroupType::SelectAtMostOne => GroupTypeV::SelectAtMostOne(
            norm_plugin_list(pl),
        ),
        schema_types::GroupType::SelectExactlyOne => GroupTypeV::SelectExactlyOne(
            norm_plugin_list(pl),
        ),
        schema_types::GroupType::SelectAll => GroupTypeV::SelectAll(norm_plugin_list(pl)),
        schema_types::GroupType::SelectAny => GroupTypeV::SelectAny(norm_plugin_list(pl)),
    }
}

/// The normalized form of an ordered group list.
pub open spec fn norm_group_list(gl: schema_types::GroupListV) -> OrderEnumV<GroupV> {
    match gl.order {
        schema_types::OrderEnum::Ascending => OrderEnumV::Ascending(
            gl.group.map_values(|g: schema_types::GroupV| norm_group(g)),
        ),
        schema_types::OrderEnum::Explicit => OrderEnumV::Explicit(
            gl.group.map_values(|g: schema_types::GroupV| norm_group(g)),
        ),
        schema_types::OrderEnum::Descending => OrderEnumV::Descending(
            gl.group.map_values(|g: schema_types::GroupV| norm_group(g)),
        ),
    }
}

/// The normalized form of an install step.
pub open spec fn norm_step(s: schema_types::InstallStepV) -> InstallStepV {
    InstallStepV {
        name: s.name,
        visible: match s.visible {
            Some(d) => Some(norm_dep(d)),
            None => None,
        },
        optional_file_groups: norm_group_list(s.optional_file_groups),
    }
}

/// The normalized form of an optional step list: an absent element
/// becomes an empty ascending list.
pub open spec fn norm_steps_opt(o: Option<schema_types::StepListV>) -> OrderEnumV<InstallStepV> {
    match o {
        None => OrderEnumV::Ascending(Seq::empty()),
        Some(sl) => match sl.order {
            schema_types::OrderEnum::Ascending => OrderEnumV::Ascending(
                sl.install_step.map_values(|st: schema_types::InstallStepV| norm_step(st)),
            ),
            schema_types::OrderEnum::Explicit => OrderEnumV::Explicit(
                sl.install_step.map_values(|st: schema_types::InstallStepV| norm_step(st)),
            ),
            schema_types::OrderEnum::Descending => OrderEnumV::Descending(
                sl.install_step.map_values(|st: schema_types::InstallStepV| norm_step(st)),
            ),
        },
    }
}

/// The normalized form of a conditional-install rule.
pub open spec fn norm_cond_pattern(cp: schema_types::ConditionalInstallPatternV) -> ConditionalInstallPatternV {
    ConditionalInstallPatternV {
        dependencies: norm_dep(cp.dependencies),
        files: norm_files(cp.files),
    }
}

/// The normalized form of the optional conditional-install section: an
/// absent section becomes an empty sequence of rules.
pub open spec fn norm_cond_installs_opt(
    o: Option<schema_types::ConditionalFileInstallListV>,
) -> Seq<ConditionalInstallPatternV> {
    match o {
        None => Seq::empty(),
        Some(cfi) => cfi.patterns.pattern.map_values(
            |cp: schema_types::ConditionalInstallPatternV| norm_cond_pattern(cp),
        ),
    }
}

/// The normalization transform: the total function from a schema
/// configuration to its installer-ready form. Every collection becomes
/// non-optional (absent and empty collapse together), every order and
/// operator attribute becomes a tagged variant, and scalar metadata is
/// carried over unchanged.
pub open spec fn norm_config(c: crate::schema::ConfigV) -> ConfigV {
    ConfigV {
        module_name: c.module_name,
        module_image: c.module_image,
        module_dependencies: match c.module_dependencies {
            Some(m) => Some(norm_dep_op(m)),
            None => None,
        },
        required_install_files: norm_files_opt(c.required_install_files),
        install_steps: norm_steps_opt(c.install_steps),
        conditional_file_installs: norm_cond_installs_opt(c.conditional_file_installs),
    }
}


impl Dependency {
    /// The normalized form of a composite dependency node.
    pub fn from_composite(c: &schema_types::CompositeDependency) -> (r: Dependency)
        ensures
            r.deep_view() == norm_dep(c.deep_view()),
        decreases *c,
    {
        match c {
            schema_types::CompositeDependency::File(f) => Dependency::File(
                FileDependency { file_name: f.file_name.clone(), state: f.state },
            ),
            schema_types::CompositeDependency::Flag(f) => Dependency::Flag(
                FlagDependency { flag: f.flag.clone(), value: f.value.clone() },
            ),
            schema_types::CompositeDependency::Game(v) => Dependency::Game(
                VersionDependency { version: v.version.clone() },
            ),
            schema_types::CompositeDependency::Fomm(v) => Dependency::Fomm(
                VersionDependency { version: v.version.clone() },
            ),
            schema_types::CompositeDependency::Dependency(m) => {
                let op = DependencyOperator::from_module_ref(m);
                proof {
                    broadcast use lemma_dep_forest_view;

                    match &op {
                        DependencyOperator::And(v) => {
                            assert(dep_forest_view(v@) =~= v.deep_view());
                        },
                        DependencyOperator::Or(v) => {
                            assert(dep_forest_view(v@) =~= v.deep_view());
                        },
                    }
                }
                Dependency::Dependency(op)
            },
        }
    }
}

impl DependencyOperator<Dependency> {
    /// The normalized form of a dependency group, by reference.
    pub fn from_module_ref(m: &schema_types::ModuleDependency) -> (r: DependencyOperator<
        Dependency,
    >)
        ensures
            r.deep_view() == norm_dep_op(m.deep_view()),
        decreases *m,
    {
        broadcast use crate::schema::types::lemma_comp_forest_view;
        broadcast use lemma_norm_dep_seq;
        broadcast use lemma_dep_forest_view;

        let ghost cs = m.deep_view().list;
        let mut out: Vec<Dependency> = Vec::new();
        proof {
            assert(cs =~= m.list.deep_view());
        }
        let mut i: usize = 0;
        while i < m.list.len()
            invariant
                0 <= i <= m.list.len(),
                cs == m.deep_view().list,
                cs == m.list.deep_view(),
                cs.len() == m.list.len(),
                out.deep_view().len() == i,
                forall|j: int| 0 <= j < i ==> out.deep_view()[j] == norm_dep(cs[j]),
            decreases m.list.len() - i,
        {
            let d = Dependency::from_composite(&m.list[i]);
            let ghost prev = out;
            out.push(d);
            proof {
                lemma_deep_view_push(prev, out, d);
            }
            i = i + 1;
        }
        proof {
            assert(out.deep_view() =~= norm_dep_seq(cs));
        }
        match m.operator {
            schema_types::DependencyOperator::And => DependencyOperator::And(out),
            schema_types::DependencyOperator::Or => DependencyOperator::Or(out),
        }
    }

    /// The normalized form of a dependency group.
    pub fn from_module(m: schema_types::ModuleDependency) -> (r: DependencyOperator<Dependency>)
        ensures
            r.deep_view() == norm_dep_op(m.deep_view()),
    {
        DependencyOperator::from_module_ref(&m)
    }
}

impl DependencyPattern {
    /// The normalized form of a dependency-to-type rule.
    pub fn from_schema(dp: schema_types::DependencyPattern) -> (r: DependencyPattern)
        ensures
            r.deep_view() == norm_dep_pattern(dp.deep_view()),
    {
        DependencyPattern {
            dependencies: Dependency::from_composite(&dp.dependencies),
            typ: dp.typ.name,
        }
    }
}

impl PluginTypeDescriptorEnum {
    /// The normalized form of a type descriptor's content. The
    /// schema's fallback `default_type` is dropped: only the pattern
    /// list is carried over (a known limitation, see the type's
    /// documentation).
    pub fn from_schema(e: schema_types::PluginTypeDescriptorEnum) -> (r: PluginTypeDescriptorEnum)
        ensures
            r.deep_view() == norm_descriptor(e.deep_view()),
    {
        match e {
            schema_types::PluginTypeDescriptorEnum::PluginType(pt) => PluginTypeDescriptorEnum::PluginType(
                pt.name,
            ),
            schema_types::PluginTypeDescriptorEnum::DependencyType(dpt) => {
                let mut items = dpt.patterns.pattern;
                let total: usize = items.len();
                let ghost orig = items.deep_view();
                let ghost n = orig.len();
                proof {
                    assert(n == total);
                }
                let mut out: Vec<DependencyPattern> = Vec::new();
                proof {
                    assert(items.deep_view() =~= orig.subrange(0, n as int));
                }
                let mut i: usize = 0;
                while items.len() > 0
                    invariant
                        0 <= i,
                        i + items.len() == n,
                        n <= usize::MAX,
                        n == orig.len(),
                        items.deep_view() == orig.subrange(i as int, n as int),
                        out.deep_view().len() == i,
                        forall|j: int|
                            0 <= j < i ==> out.deep_view()[j] == norm_dep_pattern(orig[j]),
                    decreases items.len(),
                {
                    let ghost prev_items = items;
                    let x = items.remove(0);
                    proof {
                        assert(x.deep_view() == prev_items.deep_view()[0]);
                        lemma_remove_front_view(prev_items, items, orig, i as int);
                    }
                    let d = DependencyPattern::from_schema(x);
                    let ghost prev = out;
                    out.push(d);
                    proof {
                        lemma_deep_view_push(prev, out, d);
                    }
                    i = i + 1;
                }
                proof {
                    assert(out.deep_view() =~= orig.map_values(
                        |dp: schema_types::DependencyPatternV| norm_dep_pattern(dp),
                    ));
                }
                PluginTypeDescriptorEnum::DependencyType(out)
            },
        }
    }

    /// The normalized form of a whole `typeDescriptor`.
    pub fn from_descriptor(td: schema_types::PluginTypeDescriptor) -> (r: PluginTypeDescriptorEnum)
        ensures
            r.deep_view() == norm_descriptor(td.deep_view().value),
    {
        PluginTypeDescriptorEnum::from_schema(td.value)
    }
}

impl Plugin {
    /// The normalized form of a plugin.
    pub fn from_schema(p: schema_types::Plugin) -> (r: Plugin)
        ensures
            r.deep_view() == norm_plugin(p.deep_view()),
    {
        let ghost pv = p.deep_view();
        let files = match p.files {
            Some(fl) => match fl.list {
                Some(v) => v,
                None => Vec::new(),
            },
            None => Vec::new(),
        };
        proof {
            assert(files.deep_view() =~= norm_files_opt(pv.files));
        }
        let condition_flags = match p.condition_flags {
            Some(cfl) => cfl.flag,
            None => Vec::new(),
        };
        proof {
            assert(condition_flags.deep_view() =~= (match pv.condition_flags {
                Some(cfl) => cfl.flag,
                None => Seq::<SetConditionFlagV>::empty(),
            }));
        }
        Plugin {
            name: p.name,
            description: p.description,
            image: match p.image {
                Some(i) => Some(i.path),
                None => None,
            },
            files,
            condition_flags,
            type_descriptor: match p.type_descriptor {
                Some(td) => Some(PluginTypeDescriptorEnum::from_descriptor(td)),
                None => None,
            },
        }
    }
}

impl OrderEnum<Plugin> {
    /// The normalized form of an ordered plugin list.
    pub fn from_plugin_list(pl: schema_types::PluginList) -> (r: OrderEnum<Plugin>)
        ensures
            r.deep_view() == norm_plugin_list(pl.deep_view()),
    {
        let order = pl.order;
        let mut items = pl.plugin;
        let total: usize = items.len();
        let ghost orig = items.deep_view();
        let ghost n = orig.len();
        proof {
            assert(n == total);
        }
        let mut out: Vec<Plugin> = Vec::new();
        proof {
            assert(items.deep_view() =~= orig.subrange(0, n as int));
        }
        let mut i: usize = 0;
        while items.len() > 0
            invariant
                0 <= i,
                i + items.len() == n,
                n <= usize::MAX,
                n == orig.len(),
                items.deep_view() == orig.subrange(i as int, n as int),
                out.deep_view().len() == i,
                forall|j: int| 0 <= j < i ==> out.deep_view()[j] == norm_plugin(orig[j]),
            decreases items.len(),
        {
            let ghost prev_items = items;
            let x = items.remove(0);
            proof {
                assert(x.deep_view() == prev_items.deep_view()[0]);
                lemma_remove_front_view(prev_items, items, orig, i as int);
            }
            let d = Plugin::from_schema(x);
            let ghost prev = out;
            out.push(d);
            proof {
                lemma_deep_view_push(prev, out, d);
            }
            i = i + 1;
        }
        proof {
            assert(out.deep_view() =~= orig.map_values(
                |p: schema_types::PluginV| norm_plugin(p),
            ));
        }
        match order {
            schema_types::OrderEnum::Ascending => OrderEnum::Ascending(out),
            schema_types::OrderEnum::Explicit => OrderEnum::Explicit(out),
            schema_types::OrderEnum::Descending => OrderEnum::Descending(out),
        }
    }
}

impl GroupType<OrderEnum<Plugin>> {
    /// The normalized form of a group's cardinality and plugins.
    pub fn from_parts(t: schema_types::GroupType, pl: schema_types::PluginList) -> (r: GroupType<
        OrderEnum<Plugin>,
    >)
        ensures
            r.deep_view() == norm_group_type(t, pl.deep_view()),
    {
        let oe = OrderEnum::from_plugin_list(pl);
        match t {
            schema_types::GroupType::SelectAtLeastOne => GroupType::SelectAtLeastOne(oe),
            schema_types::GroupType::SelectAtMostOne => GroupType::SelectAtMostOne(oe),
            schema_types::GroupType::SelectExactlyOne => GroupType::SelectExactlyOne(oe),
            schema_types::GroupType::SelectAll => GroupType::SelectAll(oe),
            schema_types::GroupType::SelectAny => GroupType::SelectAny(oe),
        }
    }
}

impl Group {
    /// The normalized form of a group.
    pub fn from_schema(g: schema_types::Group) -> (r: Group)
        ensures
            r.deep_view() == norm_group(g.deep_view()),
    {
        Group { name: g.name, plugins: GroupType::from_parts(g.typ, g.plugins) }
    }
}

impl OrderEnum<Group> {
    /// The normalized form of an ordered group list.
    pub fn from_group_list(gl: schema_types::GroupList) -> (r: OrderEnum<Group>)
        ensures
            r.deep_view() == norm_group_list(gl.deep_view()),
    {
        let order = gl.order;
        let mut items = gl.group;
        let total: usize = items.len();
        let ghost orig = items.deep_view();
        let ghost n = orig.len();
        proof {
            assert(n == total);
        }
        let mut out: Vec<Group> = Vec::new();
        proof {
            assert(items.deep_view() =~= orig.subrange(0, n as int));
        }
        let mut i: usize = 0;
        while items.len() > 0
            invariant
                0 <= i,
                i + items.len() == n,
                n <= usize::MAX,
                n == orig.len(),
                items.deep_view() == orig.subrange(i as int, n as int),
                out.deep_view().len() == i,
                forall|j: int| 0 <= j < i ==> out.deep_view()[j] == norm_group(orig[j]),
            decreases items.len(),
        {
            let ghost prev_items = items;
            let x = items.remove(0);
            proof {
                assert(x.deep_view() == prev_items.deep_view()[0]);
                lemma_remove_front_view(prev_items, items, orig, i as int);
            }
            let d = Group::from_schema(x);
            let ghost prev = out;
            out.push(d);
            proof {
                lemma_deep_view_push(prev, out, d);
            }
            i = i + 1;
        }
        proof {
            assert(out.deep_view() =~= orig.map_values(|g: schema_types::GroupV| norm_group(g)));
        }
        match order {
            schema_types::OrderEnum::Ascending => OrderEnum::Ascending(out),
            schema_types::OrderEnum::Explicit => OrderEnum::Explicit(out),
            schema_types::OrderEnum::Descending => OrderEnum::Descending(out),
        }
    }
}

impl InstallStep {
    /// The normalized form of an install step.
    pub fn from_schema(st: schema_types::InstallStep) -> (r: InstallStep)
        ensures
            r.deep_view() == norm_step(st.deep_view()),
    {
        InstallStep {
            name: st.name,
            visible: match &st.visible {
                Some(d) => Some(Dependency::from_composite(d)),
                None => None,
            },
            optional_file_groups: OrderEnum::from_group_list(st.optional_file_groups),
        }
    }
}

impl OrderEnum<InstallStep> {
    /// The normalized form of an ordered step list.
    pub fn from_step_list(sl: schema_types::StepList) -> (r: OrderEnum<InstallStep>)
        ensures
            r.deep_view() == norm_steps_opt(Some(sl.deep_view())),
    {
        let order = sl.order;
        let mut items = sl.install_step;
        let total: usize = items.len();
        let ghost orig = items.deep_view();
        let ghost n = orig.len();
        proof {
            assert(n == total);
        }
        let mut out: Vec<InstallStep> = Vec::new();
        proof {
            assert(items.deep_view() =~= orig.subrange(0, n as int));
        }
        let mut i: usize = 0;
        while items.len() > 0
            invariant
                0 <= i,
                i + items.len() == n,
                n <= usize::MAX,
                n == orig.len(),
                items.deep_view() == orig.subrange(i as int, n as int),
                out.deep_view().len() == i,
                forall|j: int| 0 <= j < i ==> out.deep_view()[j] == norm_step(orig[j]),
            decreases items.len(),
        {
            let ghost prev_items = items;
            let x = items.remove(0);
            proof {
                assert(x.deep_view() == prev_items.deep_view()[0]);
                lemma_remove_front_view(prev_items, items, orig, i as int);
            }
            let d = InstallStep::from_schema(x);
            let ghost prev = out;
            out.push(d);
            proof {
                lemma_deep_view_push(prev, out, d);
            }
            i = i + 1;
        }
        proof {
            assert(out.deep_view() =~= orig.map_values(
                |st: schema_types::InstallStepV| norm_step(st),
            ));
        }
        match order {
            schema_types::OrderEnum::Ascending => OrderEnum::Ascending(out),
            schema_types::OrderEnum::Explicit => OrderEnum::Explicit(out),
            schema_types::OrderEnum::Descending => OrderEnum::Descending(out),
        }
    }
}

impl ConditionalInstallPattern {
    /// The normalized form of a conditional-install rule.
    pub fn from_schema(cp: schema_types::ConditionalInstallPattern) -> (r:
        ConditionalInstallPattern)
        ensures
            r.deep_view() == norm_cond_pattern(cp.deep_view()),
    {
        let ghost cv = cp.deep_view();
        let dependencies = Dependency::from_composite(&cp.dependencies);
        let files = match cp.files.list {
            Some(v) => v,
            None => Vec::new(),
        };
        proof {
            assert(files.deep_view() =~= norm_files(cv.files));
        }
        ConditionalInstallPattern { dependencies, files }
    }
}

impl Config {
    /// The normalization transform: collapses optional wrappers into
    /// plain collections, applies the Ascending default, and makes
    /// operators and orders explicit. It is total: every schema value
    /// normalizes, and every field of the result is pinned by
    /// `norm_config`.
    pub fn from_schema(c: crate::schema::Config) -> (r: Config)
        ensures
            r.deep_view() == norm_config(c.deep_view()),
    {
        let ghost cv = c.deep_view();
        let module_name = c.module_name;
        let module_image = c.module_image;
        let module_dependencies = match c.module_dependencies {
            Some(m) => Some(DependencyOperator::from_module(m)),
            None => None,
        };
        let required_install_files = match c.required_install_files {
            Some(fl) => match fl.list {
                Some(v) => v,
                None => Vec::new(),
            },
            None => Vec::new(),
        };
        proof {
            assert(required_install_files.deep_view() =~= norm_files_opt(
                cv.required_install_files,
            ));
        }
        let install_steps = match c.install_steps {
            Some(sl) => OrderEnum::from_step_list(sl),
            None => OrderEnum::Ascending(Vec::new()),
        };
        proof {
            match &install_steps {
                OrderEnum::Ascending(v) => {
                    if cv.install_steps is None {
                        assert(v.deep_view() =~= Seq::<InstallStepV>::empty());
                    }
                },
                OrderEnum::Explicit(_) => {},
                OrderEnum::Descending(_) => {},
            }
        }
        let conditional_file_installs = match c.conditional_file_installs {
            Some(cfi) => {
                let mut items = cfi.patterns.pattern;
                let total: usize = items.len();
                let ghost orig = items.deep_view();
                let ghost n = orig.len();
                proof {
                    assert(n == total);
                }
                let mut out: Vec<ConditionalInstallPattern> = Vec::new();
                proof {
                    assert(items.deep_view() =~= orig.subrange(0, n as int));
                }
                let mut i: usize = 0;
                while items.len() > 0
                    invariant
                        0 <= i,
                        i + items.len() == n,
                        n <= usize::MAX,
                        n == orig.len(),
                        items.deep_view() == orig.subrange(i as int, n as int),
                        out.deep_view().len() == i,
                        forall|j: int|
                            0 <= j < i ==> out.deep_view()[j] == norm_cond_pattern(orig[j]),
                    decreases items.len(),
                {
                    let ghost prev_items = items;
                    let x = items.remove(0);
                    proof {
                        assert(x.deep_view() == prev_items.deep_view()[0]);
                        lemma_remove_front_view(prev_items, items, orig, i as int);
                    }
                    let d = ConditionalInstallPattern::from_schema(x);
                    let ghost prev = out;
                    out.push(d);
                    proof {
                        lemma_deep_view_push(prev, out, d);
                    }
                    i = i + 1;
                }
                proof {
                    assert(out.deep_view() =~= orig.map_values(
                        |cp: schema_types::ConditionalInstallPatternV| norm_cond_pattern(cp),
                    ));
                }
                out
            },
            None => {
                let empty_out: Vec<ConditionalInstallPattern> = Vec::new();
                proof {
                    assert(empty_out.deep_view() =~= Seq::<ConditionalInstallPatternV>::empty());
                }
                empty_out
            },
        };
        Config {
            module_name,
            module_image,
            module_dependencies,
            required_install_files,
            install_steps,
            conditional_file_installs,
        }
    }

    /// Parses a `ModuleConfig.xml` document from text and normalizes
    /// it: the composition of the schema parse and `from_schema`,
    /// inheriting the parse's failure mode.
    pub fn from_text(s: &str) -> (r: Result<Config, FormatError>)
        ensures
            crate::error::rv(r) == normalized_of_text(s@),
    {
        match crate::schema::Config::from_text(s) {
            Ok(c) => Ok(Config::from_schema(c)),
            Err(e) => Err(e),
        }
    }
}


/// The collapse law: a file list declared absent and a file list
/// declared present but empty normalize to the same empty sequence,
/// and so does a missing file-list element; the two "no items" states
/// are never distinguished downstream.
pub proof fn lemma_collapse_law(a: schema_types::FileListV, b: schema_types::FileListV)
    requires
        a.list is None,
        b.list == Some(Seq::<FileTypeV>::empty()),
    ensures
        norm_files(a) == norm_files(b),
        norm_files(a) == Seq::<FileTypeV>::empty(),
        norm_files_opt(Some(a)) == norm_files_opt(None::<schema_types::FileListV>),
{
}

/// The default-order law: an `installSteps`, `optionalFileGroups` or
/// `plugins` element lacking an `order` attribute parses with the
/// Ascending order and therefore normalizes to the `Ascending`
/// variant.
pub proof fn lemma_default_order_law(n: crate::xmltree::XmlNodeV)
    requires
        crate::xmltree::find_attr(n.attrs, "order"@) is None,
    ensures
        crate::schema::parse::step_list_spec(n) matches Ok(sl) ==> sl.order
            == schema_types::OrderEnum::Ascending && norm_steps_opt(Some(sl)) matches OrderEnumV::Ascending(_),
        crate::schema::parse::group_list_spec(n) matches Ok(gl) ==> gl.order
            == schema_types::OrderEnum::Ascending && norm_group_list(gl) matches OrderEnumV::Ascending(_),
        crate::schema::parse::plugin_list_spec(n) matches Ok(pl) ==> pl.order
            == schema_types::OrderEnum::Ascending && norm_plugin_list(pl) matches OrderEnumV::Ascending(_),
{
}


/// What parsing and normalizing a whole `ModuleConfig.xml` text
/// yields: the normalization of what the schema parse yields.
pub open spec fn normalized_of_text(s: Seq<char>) -> Result<ConfigV, crate::error::FormatErrorV> {
    match crate::schema::parse::config_of_text(s) {
        Ok(c) => Ok(norm_config(c)),
        Err(e) => Err(e),
    }
}

} // verus!
