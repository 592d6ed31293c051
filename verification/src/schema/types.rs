//! The schema model: one type per element of the module-configuration
//! XML grammar, together with their mathematical shadows (the `...V`
//! types) used by all contracts.
use vstd::prelude::*;

verus! {

/// Order attribute of a list-bearing element.
#[derive(Clone, Copy, Debug, PartialEq, Eq, Structural)]
pub enum OrderEnum {
    Ascending,
    Explicit,
    Descending,
}

impl View for OrderEnum {
    type V = OrderEnum;

    open spec fn view(&self) -> OrderEnum {
        *self
    }
}

impl DeepView for OrderEnum {
    type V = OrderEnum;

    open spec fn deep_view(&self) -> OrderEnum {
        *self
    }
}

/// The fixed set of plugin installability types.
#[derive(Clone, Copy, Debug, PartialEq, Eq, Structural)]
pub enum PluginTypeEnum {
    Required,
    Optional,
    Recommended,
    NotUsable,
    CouldBeUsable,
}

impl View for PluginTypeEnum {
    type V = PluginTypeEnum;

    open spec fn view(&self) -> PluginTypeEnum {
        *self
    }
}

impl DeepView for PluginTypeEnum {
    type V = PluginTypeEnum;

    open spec fn deep_view(&self) -> PluginTypeEnum {
        *self
    }
}

/// A `type` element: its `name` attribute.
#[derive(Clone, Copy, Debug, PartialEq, Eq, Structural)]
pub struct PluginType {
    pub name: PluginTypeEnum,
}

impl View for PluginType {
    type V = PluginType;

    open spec fn view(&self) -> PluginType {
        *self
    }
}

impl DeepView for PluginType {
    type V = PluginType;

    open spec fn deep_view(&self) -> PluginType {
        *self
    }
}

/// State a file dependency asks of a file.
#[derive(Clone, Copy, Debug, PartialEq, Eq, Structural)]
pub enum DependencyState {
    Active,
    Inactive,
    Missing,
}

impl View for DependencyState {
    type V = DependencyState;

    open spec fn view(&self) -> DependencyState {
        *self
    }
}

impl DeepView for DependencyState {
    type V = DependencyState;

    open spec fn deep_view(&self) -> DependencyState {
        *self
    }
}

/// Boolean operator of a dependency group.
#[derive(Clone, Copy, Debug, PartialEq, Eq, Structural)]
pub enum DependencyOperator {
    And,
    Or,
}

impl View for DependencyOperator {
    type V = DependencyOperator;

    open spec fn view(&self) -> DependencyOperator {
        *self
    }
}

impl DeepView for DependencyOperator {
    type V = DependencyOperator;

    open spec fn deep_view(&self) -> DependencyOperator {
        *self
    }
}

/// Selection-cardinality constraint of a group.
#[derive(Clone, Copy, Debug, PartialEq, Eq, Structural)]
pub enum GroupType {
    SelectAtLeastOne,
    SelectAtMostOne,
    SelectExactlyOne,
    SelectAll,
    SelectAny,
}

impl View for GroupType {
    type V = GroupType;

    open spec fn view(&self) -> GroupType {
        *self
    }
}

impl DeepView for GroupType {
    type V = GroupType;

    open spec fn deep_view(&self) -> GroupType {
        *self
    }
}

/// A `flagDependency` element.
#[derive(Clone, Debug, PartialEq, Eq)]
pub struct FlagDependency {
    pub flag: String,
    pub value: String,
}

/// Shadow of `FlagDependency`.
pub ghost struct FlagDependencyV {
    pub flag: Seq<char>,
    pub value: Seq<char>,
}

impl View for FlagDependency {
    type V = FlagDependencyV;

    open spec fn view(&self) -> FlagDependencyV {
        FlagDependencyV { flag: self.flag@, value: self.value@ }
    }
}

impl DeepView for FlagDependency {
    type V = FlagDependencyV;

    open spec fn deep_view(&self) -> FlagDependencyV {
        self.view()
    }
}

/// A `gameDependency` or `fommDependency` element.
#[derive(Clone, Debug, PartialEq, Eq)]
pub struct VersionDependency {
    pub version: String,
}

/// Shadow of `VersionDependency`.
pub ghost struct VersionDependencyV {
    pub version: Seq<char>,
}

impl View for VersionDependency {
    type V = VersionDependencyV;

    open spec fn view(&self) -> VersionDependencyV {
        VersionDependencyV { version: self.version@ }
    }
}

impl DeepView for VersionDependency {
    type V = VersionDependencyV;

    open spec fn deep_view(&self) -> VersionDependencyV {
        self.view()
    }
}

/// A `fileDependency` element.
#[derive(Clone, Debug, PartialEq, Eq)]
pub struct FileDependency {
    pub file_name: String,
    pub state: DependencyState,
}

/// Shadow of `FileDependency`.
pub ghost struct FileDependencyV {
    pub file_name: Seq<char>,
    pub state: DependencyState,
}

impl View for FileDependency {
    type V = FileDependencyV;

    open spec fn view(&self) -> FileDependencyV {
        FileDependencyV { file_name: self.file_name@, state: self.state }
    }
}

impl DeepView for FileDependency {
    type V = FileDependencyV;

    open spec fn deep_view(&self) -> FileDependencyV {
        self.view()
    }
}

/// A `moduleDependencies` or nested `dependencies` element: an operator
/// over an ordered list of composite dependencies.
#[derive(Debug, PartialEq, Eq)]
pub struct ModuleDependency {
    pub operator: DependencyOperator,
    pub list: Vec<CompositeDependency>,
}

/// One node of the dependency tree, keyed by its element tag.
#[derive(Debug, PartialEq, Eq)]
pub enum CompositeDependency {
    File(FileDependency),
    Flag(FlagDependency),
    Game(VersionDependency),
    Fomm(VersionDependency),
    Dependency(ModuleDependency),
}

/// Shadow of `ModuleDependency`.
pub ghost struct ModuleDependencyV {
    pub operator: DependencyOperator,
    pub list: Seq<CompositeDependencyV>,
}

/// Shadow of `CompositeDependency`.
pub ghost enum CompositeDependencyV {
    File(FileDependencyV),
    Flag(FlagDependencyV),
    Game(VersionDependencyV),
    Fomm(VersionDependencyV),
    Dependency(ModuleDependencyV),
}

/// The shadow of a composite dependency node, child-first.
pub open spec fn comp_dep_view(d: CompositeDependency) -> CompositeDependencyV
    decreases d,
{
    match d {
        CompositeDependency::File(f) => CompositeDependencyV::File(f@),
        CompositeDependency::Flag(f) => CompositeDependencyV::Flag(f@),
        CompositeDependency::Game(v) => CompositeDependencyV::Game(v@),
        CompositeDependency::Fomm(v) => CompositeDependencyV::Fomm(v@),
        CompositeDependency::Dependency(m) => CompositeDependencyV::Dependency(
            ModuleDependencyV { operator: m.operator, list: comp_forest_view(m.list@) },
        ),
    }
}

/// The shadows of a sequence of composite dependency nodes.
pub open spec fn comp_forest_view(s: Seq<CompositeDependency>) -> Seq<CompositeDependencyV>
    decreases s,
{
    if s.len() == 0 {
        Seq::empty()
    } else {
        seq![comp_dep_view(s[0])] + comp_forest_view(s.drop_first())
    }
}

/// `comp_forest_view` is the element-wise image of `comp_dep_view`.
pub broadcast proof fn lemma_comp_forest_view(s: Seq<CompositeDependency>)
    ensures
        (#[trigger] comp_forest_view(s)).len() == s.len(),
        forall|i: int| 0 <= i < s.len() ==> comp_forest_view(s)[i] == comp_dep_view(s[i]),
    decreases s,
{
    if s.len() > 0 {
        lemma_comp_forest_view(s.drop_first());
    }
}

impl View for CompositeDependency {
    type V = CompositeDependencyV;

    open spec fn view(&self) -> CompositeDependencyV {
        comp_dep_view(*self)
    }
}

impl DeepView for CompositeDependency {
    type V = CompositeDependencyV;

    open spec fn deep_view(&self) -> CompositeDependencyV {
        self.view()
    }
}

impl View for ModuleDependency {
    type V = ModuleDependencyV;

    open spec fn view(&self) -> ModuleDependencyV {
        ModuleDependencyV { operator: self.operator, list: comp_forest_view(self.list@) }
    }
}

impl DeepView for ModuleDependency {
    type V = ModuleDependencyV;

    open spec fn deep_view(&self) -> ModuleDependencyV {
        self.view()
    }
}

/// A `file` or `folder` element: a source-to-destination mapping.
#[derive(Clone, Debug, PartialEq, Eq)]
pub struct FileType {
    pub source: String,
    pub destination: Option<String>,
    pub always_install: Option<String>,
    pub install_if_usable: bool,
    pub priority: Option<isize>,
}

/// Shadow of `FileType`.
pub ghost struct FileTypeV {
    pub source: Seq<char>,
    pub destination: Option<Seq<char>>,
    pub always_install: Option<Seq<char>>,
    pub install_if_usable: bool,
    pub priority: Option<isize>,
}

impl View for FileType {
    type V = FileTypeV;

    open spec fn view(&self) -> FileTypeV {
        FileTypeV {
            source: self.source@,
            destination: self.destination.deep_view(),
            always_install: self.always_install.deep_view(),
            install_if_usable: self.install_if_usable,
            priority: self.priority,
        }
    }
}

impl DeepView for FileType {
    type V = FileTypeV;

    open spec fn deep_view(&self) -> FileTypeV {
        self.view()
    }
}

/// A `folder` element, structurally identical to `FileType`; the
/// grammar reads folder entries as `FileType` (see `FileList`).
#[derive(Clone, Debug, PartialEq, Eq)]
pub struct FolderType {
    pub source: String,
    pub destination: Option<String>,
    pub always_install: Option<String>,
    pub install_if_usable: bool,
    pub priority: Option<isize>,
}

/// Shadow of `FolderType`.
pub ghost struct FolderTypeV {
    pub source: Seq<char>,
    pub destination: Option<Seq<char>>,
    pub always_install: Option<Seq<char>>,
    pub install_if_usable: bool,
    pub priority: Option<isize>,
}

impl View for FolderType {
    type V = FolderTypeV;

    open spec fn view(&self) -> FolderTypeV {
        FolderTypeV {
            source: self.source@,
            destination: self.destination.deep_view(),
            always_install: self.always_install.deep_view(),
            install_if_usable: self.install_if_usable,
            priority: self.priority,
        }
    }
}

impl DeepView for FolderType {
    type V = FolderTypeV;

    open spec fn deep_view(&self) -> FolderTypeV {
        self.view()
    }
}

/// A list of file mappings; the list may be declared absent. Every
/// element child of a file-list element is read as a `FileType`,
/// whether its tag is `file` or `folder`: the two tags share one
/// attribute shape, and the mapping itself does not depend on the
/// tag.
#[derive(Clone, Debug, PartialEq, Eq)]
pub struct FileList {
    pub list: Option<Vec<FileType>>,
}

/// Shadow of `FileList`.
pub ghost struct FileListV {
    pub list: Option<Seq<FileTypeV>>,
}

impl View for FileList {
    type V = FileListV;

    open spec fn view(&self) -> FileListV {
        FileListV { list: self.list.deep_view() }
    }
}

impl DeepView for FileList {
    type V = FileListV;

    open spec fn deep_view(&self) -> FileListV {
        self.view()
    }
}

/// A file-list entry distinguished by tag name, for consumers that
/// want to keep files and folders apart. The grammar itself reads
/// both tags as `FileType` (see `FileList`), so no parser produces
/// this type.
#[derive(Clone, Debug, PartialEq, Eq)]
pub enum FileListEnum {
    File(FileType),
    Folder(FolderType),
}

/// Shadow of `FileListEnum`.
pub ghost enum FileListEnumV {
    File(FileTypeV),
    Folder(FolderTypeV),
}

impl View for FileListEnum {
    type V = FileListEnumV;

    open spec fn view(&self) -> FileListEnumV {
        match self {
            FileListEnum::File(f) => FileListEnumV::File(f@),
            FileListEnum::Folder(f) => FileListEnumV::Folder(f@),
        }
    }
}

impl DeepView for FileListEnum {
    type V = FileListEnumV;

    open spec fn deep_view(&self) -> FileListEnumV {
        self.view()
    }
}

/// An `image` element: its `path` attribute.
#[derive(Clone, Debug, PartialEq, Eq)]
pub struct Image {
    pub path: String,
}

/// Shadow of `Image`.
pub ghost struct ImageV {
    pub path: Seq<char>,
}

impl View for Image {
    type V = ImageV;

    open spec fn view(&self) -> ImageV {
        ImageV { path: self.path@ }
    }
}

impl DeepView for Image {
    type V = ImageV;

    open spec fn deep_view(&self) -> ImageV {
        self.view()
    }
}

/// A `moduleImage` element.
#[derive(Clone, Debug, PartialEq, Eq)]
pub struct HeaderImage {
    pub path: Option<String>,
    pub show_image: bool,
    pub show_fade: bool,
    pub height: Option<isize>,
}

/// Shadow of `HeaderImage`.
pub ghost struct HeaderImageV {
    pub path: Option<Seq<char>>,
    pub show_image: bool,
    pub show_fade: bool,
    pub height: Option<isize>,
}

impl View for HeaderImage {
    type V = HeaderImageV;

    open spec fn view(&self) -> HeaderImageV {
        HeaderImageV {
            path: self.path.deep_view(),
            show_image: self.show_image,
            show_fade: self.show_fade,
            height: self.height,
        }
    }
}

impl DeepView for HeaderImage {
    type V = HeaderImageV;

    open spec fn deep_view(&self) -> HeaderImageV {
        self.view()
    }
}

/// A `flag` element: the flag's name and the value it is set to.
#[derive(Clone, Debug, PartialEq, Eq)]
pub struct SetConditionFlag {
    pub name: String,
    pub flag_value: String,
}

/// Shadow of `SetConditionFlag`.
pub ghost struct SetConditionFlagV {
    pub name: Seq<char>,
    pub flag_value: Seq<char>,
}

impl View for SetConditionFlag {
    type V = SetConditionFlagV;

    open spec fn view(&self) -> SetConditionFlagV {
        SetConditionFlagV { name: self.name@, flag_value: self.flag_value@ }
    }
}

impl DeepView for SetConditionFlag {
    type V = SetConditionFlagV;

    open spec fn deep_view(&self) -> SetConditionFlagV {
        self.view()
    }
}

/// A `conditionFlags` element: the flags a plugin sets.
#[derive(Clone, Debug, PartialEq, Eq)]
pub struct ConditionFlagList {
    pub flag: Vec<SetConditionFlag>,
}

/// Shadow of `ConditionFlagList`.
pub ghost struct ConditionFlagListV {
    pub flag: Seq<SetConditionFlagV>,
}

impl View for ConditionFlagList {
    type V = ConditionFlagListV;

    open spec fn view(&self) -> ConditionFlagListV {
        ConditionFlagListV { flag: self.flag.deep_view() }
    }
}

impl DeepView for ConditionFlagList {
    type V = ConditionFlagListV;

    open spec fn deep_view(&self) -> ConditionFlagListV {
        self.view()
    }
}

/// A `pattern` element inside a `dependencyType`: a dependency tree
/// paired with the plugin type it selects.
#[derive(Debug, PartialEq, Eq)]
pub struct DependencyPattern {
    pub dependencies: CompositeDependency,
    pub typ: PluginType,
}

/// Shadow of `DependencyPattern`.
pub ghost struct DependencyPatternV {
    pub dependencies: CompositeDependencyV,
    pub typ: PluginType,
}

impl View for DependencyPattern {
    type V = DependencyPatternV;

    open spec fn view(&self) -> DependencyPatternV {
        DependencyPatternV { dependencies: comp_dep_view(self.dependencies), typ: self.typ }
    }
}

impl DeepView for DependencyPattern {
    type V = DependencyPatternV;

    open spec fn deep_view(&self) -> DependencyPatternV {
        self.view()
    }
}

/// A `patterns` element inside a `dependencyType`.
#[derive(Debug, PartialEq, Eq)]
pub struct DependencyPatternList {
    pub pattern: Vec<DependencyPattern>,
}

/// Shadow of `DependencyPatternList`.
pub ghost struct DependencyPatternListV {
    pub pattern: Seq<DependencyPatternV>,
}

impl View for DependencyPatternList {
    type V = DependencyPatternListV;

    open spec fn view(&self) -> DependencyPatternListV {
        DependencyPatternListV { pattern: self.pattern.deep_view() }
    }
}

impl DeepView for DependencyPatternList {
    type V = DependencyPatternListV;

    open spec fn deep_view(&self) -> DependencyPatternListV {
        self.view()
    }
}

/// A `dependencyType` element: a fallback type plus pattern rules.
#[derive(Debug, PartialEq, Eq)]
pub struct DependencyPluginType {
    pub default_type: PluginType,
    pub patterns: DependencyPatternList,
}

/// Shadow of `DependencyPluginType`.
pub ghost struct DependencyPluginTypeV {
    pub default_type: PluginType,
    pub patterns: DependencyPatternListV,
}

impl View for DependencyPluginType {
    type V = DependencyPluginTypeV;

    open spec fn view(&self) -> DependencyPluginTypeV {
        DependencyPluginTypeV { default_type: self.default_type, patterns: self.patterns@ }
    }
}

impl DeepView for DependencyPluginType {
    type V = DependencyPluginTypeV;

    open spec fn deep_view(&self) -> DependencyPluginTypeV {
        self.view()
    }
}

/// The two shapes of a `typeDescriptor`'s single child.
#[derive(Debug, PartialEq, Eq)]
pub enum PluginTypeDescriptorEnum {
    DependencyType(DependencyPluginType),
    PluginType(PluginType),
}

/// Shadow of `PluginTypeDescriptorEnum`.
pub ghost enum PluginTypeDescriptorEnumV {
    DependencyType(DependencyPluginTypeV),
    PluginType(PluginType),
}

impl View for PluginTypeDescriptorEnum {
    type V = PluginTypeDescriptorEnumV;

    open spec fn view(&self) -> PluginTypeDescriptorEnumV {
        match self {
            PluginTypeDescriptorEnum::DependencyType(d) => PluginTypeDescriptorEnumV::DependencyType(
                d@,
            ),
            PluginTypeDescriptorEnum::PluginType(p) => PluginTypeDescriptorEnumV::PluginType(*p),
        }
    }
}

impl DeepView for PluginTypeDescriptorEnum {
    type V = PluginTypeDescriptorEnumV;

    open spec fn deep_view(&self) -> PluginTypeDescriptorEnumV {
        self.view()
    }
}

/// A `typeDescriptor` element.
#[derive(Debug, PartialEq, Eq)]
pub struct PluginTypeDescriptor {
    pub value: PluginTypeDescriptorEnum,
}

/// Shadow of `PluginTypeDescriptor`.
pub ghost struct PluginTypeDescriptorV {
    pub value: PluginTypeDescriptorEnumV,
}

impl View for PluginTypeDescriptor {
    type V = PluginTypeDescriptorV;

    open spec fn view(&self) -> PluginTypeDescriptorV {
        PluginTypeDescriptorV { value: self.value@ }
    }
}

impl DeepView for PluginTypeDescriptor {
    type V = PluginTypeDescriptorV;

    open spec fn deep_view(&self) -> PluginTypeDescriptorV {
        self.view()
    }
}

/// A `plugin` element.
#[derive(Debug, PartialEq, Eq)]
pub struct Plugin {
    pub name: String,
    pub description: String,
    pub image: Option<Image>,
    pub files: Option<FileList>,
    pub condition_flags: Option<ConditionFlagList>,
    pub type_descriptor: Option<PluginTypeDescriptor>,
}

/// Shadow of `Plugin`.
pub ghost struct PluginV {
    pub name: Seq<char>,
    pub description: Seq<char>,
    pub image: Option<ImageV>,
    pub files: Option<FileListV>,
    pub condition_flags: Option<ConditionFlagListV>,
    pub type_descriptor: Option<PluginTypeDescriptorV>,
}

impl View for Plugin {
    type V = PluginV;

    open spec fn view(&self) -> PluginV {
        PluginV {
            name: self.name@,
            description: self.description@,
            image: self.image.deep_view(),
            files: self.files.deep_view(),
            condition_flags: self.condition_flags.deep_view(),
            type_descriptor: self.type_descriptor.deep_view(),
        }
    }
}

impl DeepView for Plugin {
    type V = PluginV;

    open spec fn deep_view(&self) -> PluginV {
        self.view()
    }
}

/// A `plugins` element: ordered plugins of a group.
#[derive(Debug, PartialEq, Eq)]
pub struct PluginList {
    pub order: OrderEnum,
    pub plugin: Vec<Plugin>,
}

/// Shadow of `PluginList`.
pub ghost struct PluginListV {
    pub order: OrderEnum,
    pub plugin: Seq<PluginV>,
}

impl View for PluginList {
    type V = PluginListV;

    open spec fn view(&self) -> PluginListV {
        PluginListV { order: self.order, plugin: self.plugin.deep_view() }
    }
}

impl DeepView for PluginList {
    type V = PluginListV;

    open spec fn deep_view(&self) -> PluginListV {
        self.view()
    }
}

/// A `group` element.
#[derive(Debug, PartialEq, Eq)]
pub struct Group {
    pub name: String,
    pub typ: GroupType,
    pub plugins: PluginList,
}

/// Shadow of `Group`.
pub ghost struct GroupV {
    pub name: Seq<char>,
    pub typ: GroupType,
    pub plugins: PluginListV,
}

impl View for Group {
    type V = GroupV;

    open spec fn view(&self) -> GroupV {
        GroupV { name: self.name@, typ: self.typ, plugins: self.plugins@ }
    }
}

impl DeepView for Group {
    type V = GroupV;

    open spec fn deep_view(&self) -> GroupV {
        self.view()
    }
}

/// An `optionalFileGroups` element: ordered groups of a step.
#[derive(Debug, PartialEq, Eq)]
pub struct GroupList {
    pub order: OrderEnum,
    pub group: Vec<Group>,
}

/// Shadow of `GroupList`.
pub ghost struct GroupListV {
    pub order: OrderEnum,
    pub group: Seq<GroupV>,
}

impl View for GroupList {
    type V = GroupListV;

    open spec fn view(&self) -> GroupListV {
        GroupListV { order: self.order, group: self.group.deep_view() }
    }
}

impl DeepView for GroupList {
    type V = GroupListV;

    open spec fn deep_view(&self) -> GroupListV {
        self.view()
    }
}

/// An `installStep` element.
#[derive(Debug, PartialEq, Eq)]
pub struct InstallStep {
    pub name: String,
    pub visible: Option<CompositeDependency>,
    pub optional_file_groups: GroupList,
}

/// Shadow of `InstallStep`.
pub ghost struct InstallStepV {
    pub name: Seq<char>,
    pub visible: Option<CompositeDependencyV>,
    pub optional_file_groups: GroupListV,
}

impl View for InstallStep {
    type V = InstallStepV;

    open spec fn view(&self) -> InstallStepV {
        InstallStepV {
            name: self.name@,
            visible: self.visible.deep_view(),
            optional_file_groups: self.optional_file_groups@,
        }
    }
}

impl DeepView for InstallStep {
    type V = InstallStepV;

    open spec fn deep_view(&self) -> InstallStepV {
        self.view()
    }
}

/// An `installSteps` element: ordered steps of the wizard.
#[derive(Debug, PartialEq, Eq)]
pub struct StepList {
    pub order: OrderEnum,
    pub install_step: Vec<InstallStep>,
}

/// Shadow of `StepList`.
pub ghost struct StepListV {
    pub order: OrderEnum,
    pub install_step: Seq<InstallStepV>,
}

impl View for StepList {
    type V = StepListV;

    open spec fn view(&self) -> StepListV {
        StepListV { order: self.order, install_step: self.install_step.deep_view() }
    }
}

impl DeepView for StepList {
    type V = StepListV;

    open spec fn deep_view(&self) -> StepListV {
        self.view()
    }
}

/// A `pattern` element inside `conditionalFileInstalls`.
#[derive(Debug, PartialEq, Eq)]
pub struct ConditionalInstallPattern {
    pub dependencies: CompositeDependency,
    pub files: FileList,
}

/// Shadow of `ConditionalInstallPattern`.
pub ghost struct ConditionalInstallPatternV {
    pub dependencies: CompositeDependencyV,
    pub files: FileListV,
}

impl View for ConditionalInstallPattern {
    type V = ConditionalInstallPatternV;

    open spec fn view(&self) -> ConditionalInstallPatternV {
        ConditionalInstallPatternV {
            dependencies: comp_dep_view(self.dependencies),
            files: self.files@,
        }
    }
}

impl DeepView for ConditionalInstallPattern {
    type V = ConditionalInstallPatternV;

    open spec fn deep_view(&self) -> ConditionalInstallPatternV {
        self.view()
    }
}

/// A `patterns` element inside `conditionalFileInstalls`.
#[derive(Debug, PartialEq, Eq)]
pub struct ConditionalInstallPatternList {
    pub pattern: Vec<ConditionalInstallPattern>,
}

/// Shadow of `ConditionalInstallPatternList`.
pub ghost struct ConditionalInstallPatternListV {
    pub pattern: Seq<ConditionalInstallPatternV>,
}

impl View for ConditionalInstallPatternList {
    type V = ConditionalInstallPatternListV;

    open spec fn view(&self) -> ConditionalInstallPatternListV {
        ConditionalInstallPatternListV { pattern: self.pattern.deep_view() }
    }
}

impl DeepView for ConditionalInstallPatternList {
    type V = ConditionalInstallPatternListV;

    open spec fn deep_view(&self) -> ConditionalInstallPatternListV {
        self.view()
    }
}

/// A `conditionalFileInstalls` element.
#[derive(Debug, PartialEq, Eq)]
pub struct ConditionalFileInstallList {
    pub patterns: ConditionalInstallPatternList,
}

/// Shadow of `ConditionalFileInstallList`.
pub ghost struct ConditionalFileInstallListV {
    pub patterns: ConditionalInstallPatternListV,
}

impl View for ConditionalFileInstallList {
    type V = ConditionalFileInstallListV;

    open spec fn view(&self) -> ConditionalFileInstallListV {
        ConditionalFileInstallListV { patterns: self.patterns@ }
    }
}

impl DeepView for ConditionalFileInstallList {
    type V = ConditionalFileInstallListV;

    open spec fn deep_view(&self) -> ConditionalFileInstallListV {
        self.view()
    }
}

} // verus!
