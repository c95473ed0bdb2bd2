use vstd::prelude::*;

verus! {

/// Path information for a linked library.
///
/// For a `path` `/home/libs/libmylib.so`, `basename` is `mylib` and `libname`
/// is `libmylib.so`.
#[derive(Debug, Clone, PartialEq, Eq)]
pub struct DylibPathInfo {
    pub path: String,
    pub basename: String,
    pub libname: String,
}

/// One normalized instruction needed to link the final binary.
#[derive(Debug, Clone, PartialEq, Eq)]
pub enum LinkArg {
    LinkDir(String),
    LinkLib(String),
    Path(DylibPathInfo),
}

/// The mathematical value of a `LinkArg`.
pub enum LinkArgView {
    LinkDir(Seq<char>),
    LinkLib(Seq<char>),
    Path { path: Seq<char>, basename: Seq<char>, libname: Seq<char> },
}

impl View for LinkArg {
    type V = LinkArgView;

    open spec fn view(&self) -> LinkArgView {
        match self {
            LinkArg::LinkDir(d) => LinkArgView::LinkDir(d@),
            LinkArg::LinkLib(l) => LinkArgView::LinkLib(l@),
            LinkArg::Path(p) => LinkArgView::Path { path: p.path@, basename: p.basename@, libname: p.libname@ },
        }
    }
}

/// The values of a sequence of link arguments, in order.
pub open spec fn args_view(v: Seq<LinkArg>) -> Seq<LinkArgView> {
    v.map_values(|a: LinkArg| a@)
}

/// A native dependency to be built: its name and its build definitions.
pub struct Dependency {
    pub name: &'static str,
    pub definitions: Vec<(&'static str, &'static str)>,
}

impl Dependency {
    /// The text by which the dependency is shown in diagnostics: its name.
    pub fn debug_name(&self) -> (r: &'static str)
        ensures
            r == self.name,
    {
        self.name
    }
}

} // verus!
