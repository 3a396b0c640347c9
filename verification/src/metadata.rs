//! The package metadata that the build toolchain reports about a project.
use vstd::prelude::*;

verus! {

/// A buildable unit of a package.
#[derive(Debug, Clone, PartialEq, Eq)]
pub struct Target {
    pub name: String,
    /// The kinds of the target; a binary has `"bin"` among them.
    pub kind: Vec<String>,
}

/// A package of the project's workspace.
#[derive(Debug, Clone, PartialEq, Eq)]
pub struct Package {
    pub name: String,
    pub manifest_path: String,
    pub targets: Vec<Target>,
}

/// The packages of a project, in the order the toolchain lists them.
#[derive(Debug, Clone, PartialEq, Eq)]
pub struct CargoMetadata {
    pub packages: Vec<Package>,
}

/// The mathematical content of a [`Target`].
pub struct TargetView {
    pub name: Seq<char>,
    pub kind: Seq<Seq<char>>,
}

/// The mathematical content of a [`Package`].
pub struct PackageView {
    pub name: Seq<char>,
    pub manifest_path: Seq<char>,
    pub targets: Seq<TargetView>,
}

/// The mathematical content of a [`CargoMetadata`].
pub struct CargoMetadataView {
    pub packages: Seq<PackageView>,
}

impl View for Target {
    type V = TargetView;

    open spec fn view(&self) -> TargetView {
        TargetView { name: self.name@, kind: self.kind.deep_view() }
    }
}

impl DeepView for Target {
    type V = TargetView;

    open spec fn deep_view(&self) -> TargetView {
        self@
    }
}

impl View for Package {
    type V = PackageView;

    open spec fn view(&self) -> PackageView {
        PackageView {
            name: self.name@,
            manifest_path: self.manifest_path@,
            targets: self.targets.deep_view(),
        }
    }
}

impl DeepView for Package {
    type V = PackageView;

    open spec fn deep_view(&self) -> PackageView {
        self@
    }
}

impl View for CargoMetadata {
    type V = CargoMetadataView;

    open spec fn view(&self) -> CargoMetadataView {
        CargoMetadataView { packages: self.packages.deep_view() }
    }
}

impl TargetView {
    /// A target is a binary when `"bin"` is among its kinds.
    pub open spec fn is_binary(self) -> bool {
        self.kind.contains("bin"@)
    }
}

} // verus!
