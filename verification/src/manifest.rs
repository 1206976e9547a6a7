//! The manifest model: an application is an ordered list of components, each
//! with an id and optional build and clean commands.

use vstd::prelude::*;

verus! {

/// The text of an optional string, as a sequence of characters.
pub open spec fn opt_text(s: Option<String>) -> Option<Seq<char>> {
    match s {
        Some(t) => Some(t@),
        None => None,
    }
}

/// The texts of a list of strings, in order.
pub open spec fn texts(v: Seq<String>) -> Seq<Seq<char>> {
    v.map_values(|s: String| s@)
}

/// How a component is built: a shell command line, the directory it runs in
/// (relative to the application root) and the globs to watch.
#[derive(Debug, PartialEq, Eq)]
pub struct BuildConfig {
    pub command: String,
    pub workdir: Option<String>,
    pub watch: Option<Vec<String>>,
}

/// The mathematical value of a [`BuildConfig`].
pub ghost struct BuildConfigView {
    pub command: Seq<char>,
    pub workdir: Option<Seq<char>>,
    pub watch: Option<Seq<Seq<char>>>,
}

impl View for BuildConfig {
    type V = BuildConfigView;

    open spec fn view(&self) -> BuildConfigView {
        BuildConfigView {
            command: self.command@,
            workdir: opt_text(self.workdir),
            watch: match self.watch {
                Some(w) => Some(texts(w@)),
                None => None,
            },
        }
    }
}

/// How a component is cleaned: a shell command line and the directory it runs
/// in, relative to the application root.
#[derive(Debug, PartialEq, Eq)]
pub struct CleanConfig {
    pub command: String,
    pub workdir: Option<String>,
}

/// The mathematical value of a [`CleanConfig`].
pub ghost struct CleanConfigView {
    pub command: Seq<char>,
    pub workdir: Option<Seq<char>>,
}

impl View for CleanConfig {
    type V = CleanConfigView;

    open spec fn view(&self) -> CleanConfigView {
        CleanConfigView { command: self.command@, workdir: opt_text(self.workdir) }
    }
}

/// One named unit of the application.
#[derive(Debug, PartialEq, Eq)]
pub struct ComponentManifest {
    pub id: String,
    pub build: Option<BuildConfig>,
    pub clean: Option<CleanConfig>,
}

/// The mathematical value of a [`ComponentManifest`].
pub ghost struct ComponentView {
    pub id: Seq<char>,
    pub build: Option<BuildConfigView>,
    pub clean: Option<CleanConfigView>,
}

impl View for ComponentManifest {
    type V = ComponentView;

    open spec fn view(&self) -> ComponentView {
        ComponentView {
            id: self.id@,
            build: match self.build {
                Some(b) => Some(b@),
                None => None,
            },
            clean: match self.clean {
                Some(c) => Some(c@),
                None => None,
            },
        }
    }
}

/// The values of a list of components, in order.
pub open spec fn component_views(v: Seq<ComponentManifest>) -> Seq<ComponentView> {
    v.map_values(|c: ComponentManifest| c@)
}

/// The whole application: its components in the order of the manifest.
#[derive(Debug, PartialEq, Eq)]
pub struct ApplicationManifest {
    pub components: Vec<ComponentManifest>,
}

impl View for ApplicationManifest {
    type V = Seq<ComponentView>;

    open spec fn view(&self) -> Seq<ComponentView> {
        component_views(self.components@)
    }
}

/// A copy of an optional string, with the same text.
pub fn clone_opt_text(s: &Option<String>) -> (r: Option<String>)
    ensures
        opt_text(r) == opt_text(*s),
{
    match s {
        Some(t) => Some(t.clone()),
        None => None,
    }
}

/// A copy of a list of strings, with the same texts in the same order.
pub fn clone_texts(v: &Vec<String>) -> (r: Vec<String>)
    ensures
        texts(r@) == texts(v@),
{
    let mut out: Vec<String> = Vec::new();
    let mut i: usize = 0;
    while i < v.len()
        invariant
            i <= v.len(),
            out.len() == i,
            forall|k: int| 0 <= k < i ==> out@[k]@ == v@[k]@,
        decreases v.len() - i,
    {
        out.push(v[i].clone());
        i += 1;
    }
    assert(texts(out@) =~= texts(v@));
    out
}

impl Clone for BuildConfig {
    fn clone(&self) -> (r: Self)
        ensures
            r@ == self@,
    {
        BuildConfig {
            command: self.command.clone(),
            workdir: clone_opt_text(&self.workdir),
            watch: match &self.watch {
                Some(w) => Some(clone_texts(w)),
                None => None,
            },
        }
    }
}

impl Clone for CleanConfig {
    fn clone(&self) -> (r: Self)
        ensures
            r@ == self@,
    {
        CleanConfig { command: self.command.clone(), workdir: clone_opt_text(&self.workdir) }
    }
}

impl Clone for ComponentManifest {
    fn clone(&self) -> (r: Self)
        ensures
            r@ == self@,
    {
        ComponentManifest {
            id: self.id.clone(),
            build: match &self.build {
                Some(b) => Some(b.clone()),
                None => None,
            },
            clean: match &self.clean {
                Some(c) => Some(c.clone()),
                None => None,
            },
        }
    }
}

/// A copy of a list of components, with the same values in the same order.
pub fn clone_components(v: &Vec<ComponentManifest>) -> (r: Vec<ComponentManifest>)
    ensures
        component_views(r@) == component_views(v@),
{
    let mut out: Vec<ComponentManifest> = Vec::new();
    let mut i: usize = 0;
    while i < v.len()
        invariant
            i <= v.len(),
            out.len() == i,
            forall|k: int| 0 <= k < i ==> out@[k]@ == v@[k]@,
        decreases v.len() - i,
    {
        out.push(v[i].clone());
        i += 1;
    }
    assert(component_views(out@) =~= component_views(v@));
    out
}

impl Clone for ApplicationManifest {
    fn clone(&self) -> (r: Self)
        ensures
            r@ == self@,
    {
        ApplicationManifest { components: clone_components(&self.components) }
    }
}

} // verus!
