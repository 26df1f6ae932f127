//! Materials and the resolution of their texture paths.

use vstd::prelude::*;
use vstd::string::*;

verus! {

/// A material of an object: its name and the path its diffuse texture is
/// read from.
#[derive(Clone, Debug, PartialEq, Eq)]
pub struct Material {
    pub name: String,
    pub diffuse_texture: String,
}

/// Mathematical content of a [`Material`].
pub ghost struct MaterialView {
    pub name: Seq<char>,
    pub diffuse_texture: Seq<char>,
}

impl View for Material {
    type V = MaterialView;

    open spec fn view(&self) -> MaterialView {
        MaterialView { name: self.name@, diffuse_texture: self.diffuse_texture@ }
    }
}

/// What `std::path::Path::parent` returns for a path, on the platform the
/// library is built for.
pub uninterp spec fn parent_of(path: Seq<char>) -> Option<Seq<char>>;

/// What `std::path::Path::join` returns for a base and a path to adjoin, on
/// the platform the library is built for.
pub uninterp spec fn joined(base: Seq<char>, path: Seq<char>) -> Seq<char>;

/// Calls `std::path::Path::parent`: the path without its final component,
/// or nothing when the path ends in a root or is empty. The contract only
/// gives the result its name.
#[verifier::external_body]
pub(crate) fn path_parent(path: &str) -> (folder: Option<String>)
    ensures
        match folder {
            Some(f) => parent_of(path@) == Some(f@),
            None => parent_of(path@) is None,
        },
{
    match std::path::Path::new(path).parent() {
        Some(folder) => Some(folder.to_string_lossy().into_owned()),
        None => None,
    }
}

/// Calls `std::path::Path::join`: `path` adjoined to `base`. The contract
/// only gives the result its name.
#[verifier::external_body]
pub(crate) fn path_join(base: &str, path: &str) -> (full: String)
    ensures
        full@ == joined(base@, path@),
{
    std::path::Path::new(base).join(path).to_string_lossy().into_owned()
}

impl Material {
    /// A material named `name` whose diffuse texture is read from
    /// `texture_path`.
    pub fn build(texture_path: String, name: &str) -> (material: Material)
        ensures
            material@ == (MaterialView { name: name@, diffuse_texture: texture_path@ }),
    {
        Material { name: String::from_str(name), diffuse_texture: texture_path }
    }
}

} // verus!
