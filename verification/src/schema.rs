//! The schema model's two document roots: `Info` for `info.xml` and
//! `Config` for `ModuleConfig.xml`.
pub mod parse;
pub mod types;

use crate::schema::types::{
    ConditionalFileInstallList, ConditionalFileInstallListV, FileList, FileListV, HeaderImage,
    HeaderImageV, ModuleDependency, ModuleDependencyV, StepList, StepListV,
};
use vstd::prelude::*;

verus! {

/// The metadata document: every field is optional.
#[derive(Clone, Debug, PartialEq, Eq)]
pub struct Info {
    pub name: Option<String>,
    pub description: Option<String>,
    pub version: Option<String>,
    pub author: Option<String>,
    pub website: Option<String>,
    pub category_id: Option<usize>,
}

/// Shadow of `Info`.
pub ghost struct InfoV {
    pub name: Option<Seq<char>>,
    pub description: Option<Seq<char>>,
    pub version: Option<Seq<char>>,
    pub author: Option<Seq<char>>,
    pub website: Option<Seq<char>>,
    pub category_id: Option<usize>,
}

impl View for Info {
    type V = InfoV;

    open spec fn view(&self) -> InfoV {
        InfoV {
            name: self.name.deep_view(),
            description: self.description.deep_view(),
            version: self.version.deep_view(),
            author: self.author.deep_view(),
            website: self.website.deep_view(),
            category_id: self.category_id,
        }
    }
}

impl DeepView for Info {
    type V = InfoV;

    open spec fn deep_view(&self) -> InfoV {
        self.view()
    }
}

/// The module-configuration document: a mandatory module name and the
/// optional top-level sections.
#[derive(Debug, PartialEq, Eq)]
pub struct Config {
    pub module_name: String,
    pub module_image: Option<HeaderImage>,
    pub module_dependencies: Option<ModuleDependency>,
    pub required_install_files: Option<FileList>,
    pub install_steps: Option<StepList>,
    pub conditional_file_installs: Option<ConditionalFileInstallList>,
}

/// Shadow of `Config`.
pub ghost struct ConfigV {
    pub module_name: Seq<char>,
    pub module_image: Option<HeaderImageV>,
    pub module_dependencies: Option<ModuleDependencyV>,
    pub required_install_files: Option<FileListV>,
    pub install_steps: Option<StepListV>,
    pub conditional_file_installs: Option<ConditionalFileInstallListV>,
}

impl View for Config {
    type V = ConfigV;

    open spec fn view(&self) -> ConfigV {
        ConfigV {
            module_name: self.module_name@,
            module_image: self.module_image.deep_view(),
            module_dependencies: self.module_dependencies.deep_view(),
            required_install_files: self.required_install_files.deep_view(),
            install_steps: self.install_steps.deep_view(),
            conditional_file_installs: self.conditional_file_installs.deep_view(),
        }
    }
}

impl DeepView for Config {
    type V = ConfigV;

    open spec fn deep_view(&self) -> ConfigV {
        self.view()
    }
}

} // verus!
