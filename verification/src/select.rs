//! Selection of the components to act on.
//!
//! A request is a list of component ids. An empty request selects every
//! component. Any other request selects the components whose id it names, in
//! the order of the manifest, and is refused as a whole when it names an id
//! that no component has.

use vstd::prelude::*;
use crate::manifest::{component_views, texts, ComponentManifest, ComponentView};
use crate::text::{join, joined};

verus! {

/// Whether some component of `all` has the id `id`.
pub open spec fn known_id(all: Seq<ComponentView>, id: Seq<char>) -> bool {
    exists|i: int| 0 <= i < all.len() && #[trigger] all[i].id == id
}

/// The test for an id that no component of `all` has.
pub open spec fn is_unknown(all: Seq<ComponentView>) -> spec_fn(Seq<char>) -> bool {
    |id: Seq<char>| !known_id(all, id)
}

/// The test for a component whose id is among `requested`.
pub open spec fn is_requested(requested: Seq<Seq<char>>) -> spec_fn(ComponentView) -> bool {
    |c: ComponentView| requested.contains(c.id)
}

/// The requested ids that no component has: each of them, in the order of the
/// request, as often as the request names it.
pub open spec fn unknown_ids(all: Seq<ComponentView>, requested: Seq<Seq<char>>) -> Seq<Seq<char>> {
    requested.filter(is_unknown(all))
}

/// The components that a request selects: all of them for an empty request,
/// else those whose id is requested, in the order of the manifest.
pub open spec fn selection(all: Seq<ComponentView>, requested: Seq<Seq<char>>) -> Seq<
    ComponentView,
> {
    if requested.len() == 0 {
        all
    } else {
        all.filter(is_requested(requested))
    }
}

/// Whether none of the components defines a clean command.
pub open spec fn none_has_clean(components: Seq<ComponentView>) -> bool {
    forall|i: int| 0 <= i < components.len() ==> (#[trigger] components[i]).clean is None
}

/// A request named ids that no component has. `unknown` holds every one of
/// them, not only the first.
#[derive(Debug, PartialEq, Eq)]
pub struct UnknownComponentError {
    pub unknown: Vec<String>,
}

/// The diagnostic for unknown ids: all of them in one line, separated by
/// commas.
pub open spec fn unknown_message(unknown: Seq<Seq<char>>) -> Seq<char> {
    "Unknown component(s) "@ + joined(unknown, ", "@)
}

impl UnknownComponentError {
    /// The diagnostic, which names every unknown id.
    pub fn message(&self) -> (msg: String)
        ensures
            msg@ == unknown_message(texts(self.unknown@)),
    {
        let mut msg = "Unknown component(s) ".to_owned();
        msg.append(join(&self.unknown, ", ").as_str());
        msg
    }
}

/// Whether `list` holds a string with the text of `s`.
pub fn contains_text(list: &Vec<String>, s: &String) -> (found: bool)
    ensures
        found == texts(list@).contains(s@),
{
    let mut i: usize = 0;
    while i < list.len()
        invariant
            i <= list.len(),
            forall|k: int| 0 <= k < i ==> texts(list@)[k] != s@,
        decreases list.len() - i,
    {
        if list[i] == *s {
            assert(texts(list@)[i as int] == s@);
            return true;
        }
        i += 1;
    }
    false
}

/// Whether some component of `all` has the id `id`.
pub fn has_component(all: &Vec<ComponentManifest>, id: &String) -> (found: bool)
    ensures
        found == known_id(component_views(all@), id@),
{
    let mut i: usize = 0;
    while i < all.len()
        invariant
            i <= all.len(),
            forall|k: int| 0 <= k < i ==> component_views(all@)[k].id != id@,
        decreases all.len() - i,
    {
        if all[i].id == *id {
            assert(component_views(all@)[i as int].id == id@);
            return true;
        }
        i += 1;
    }
    false
}

/// The requested ids that no component has, in the order of the request.
pub fn unknown_components(all: &Vec<ComponentManifest>, requested: &Vec<String>) -> (unknown: Vec<
    String,
>)
    ensures
        texts(unknown@) == unknown_ids(component_views(all@), texts(requested@)),
{
    let ghost views = component_views(all@);
    let ghost ids = texts(requested@);
    let mut unknown: Vec<String> = Vec::new();
    let mut i: usize = 0;
    assert(ids.take(0) =~= Seq::<Seq<char>>::empty());
    assert(texts(unknown@) =~= unknown_ids(views, ids.take(0))) by {
        reveal(Seq::filter);
    }
    while i < requested.len()
        invariant
            i <= requested.len(),
            views == component_views(all@),
            ids == texts(requested@),
            texts(unknown@) == unknown_ids(views, ids.take(i as int)),
        decreases requested.len() - i,
    {
        let ghost before = texts(unknown@);
        proof {
            assert(ids.take(i as int + 1) =~= ids.take(i as int).push(ids[i as int]));
            ids.take(i as int).lemma_filter_push(ids[i as int], is_unknown(views));
        }
        if !has_component(all, &requested[i]) {
            unknown.push(requested[i].clone());
            assert(texts(unknown@) =~= before.push(ids[i as int]));
        }
        i += 1;
    }
    assert(ids.take(i as int) =~= ids);
    unknown
}

/// The components whose id is among `requested`, in the order of `all`.
pub fn requested_components(all: &Vec<ComponentManifest>, requested: &Vec<String>) -> (chosen: Vec<
    ComponentManifest,
>)
    ensures
        component_views(chosen@) == component_views(all@).filter(
            is_requested(texts(requested@)),
        ),
{
    let ghost views = component_views(all@);
    let ghost wanted = is_requested(texts(requested@));
    let mut chosen: Vec<ComponentManifest> = Vec::new();
    let mut i: usize = 0;
    assert(views.take(0) =~= Seq::<ComponentView>::empty());
    assert(component_views(chosen@) =~= views.take(0).filter(wanted)) by {
        reveal(Seq::filter);
    }
    while i < all.len()
        invariant
            i <= all.len(),
            views == component_views(all@),
            wanted == is_requested(texts(requested@)),
            component_views(chosen@) == views.take(i as int).filter(wanted),
        decreases all.len() - i,
    {
        let ghost before = component_views(chosen@);
        proof {
            assert(views.take(i as int + 1) =~= views.take(i as int).push(views[i as int]));
            views.take(i as int).lemma_filter_push(views[i as int], wanted);
        }
        if contains_text(requested, &all[i].id) {
            chosen.push(all[i].clone());
            assert(component_views(chosen@) =~= before.push(views[i as int]));
        }
        i += 1;
    }
    assert(views.take(i as int) =~= views);
    chosen
}

/// Selects the components to act on.
///
/// An empty request hands `all` back as it is. A request that names an id
/// which no component has fails, and the error lists every such id. Any other
/// request gives the components whose id it names, in the order of `all`.
pub fn select_components(all: Vec<ComponentManifest>, requested: &Vec<String>) -> (r: Result<
    Vec<ComponentManifest>,
    UnknownComponentError,
>)
    ensures
        r is Ok <==> unknown_ids(component_views(all@), texts(requested@)).len() == 0,
        r matches Ok(chosen) ==> component_views(chosen@) == selection(
            component_views(all@),
            texts(requested@),
        ),
        r matches Err(e) ==> texts(e.unknown@) == unknown_ids(
            component_views(all@),
            texts(requested@),
        ),
        requested@.len() == 0 ==> r == Ok::<Vec<ComponentManifest>, UnknownComponentError>(all),
{
    if requested.len() == 0 {
        assert(unknown_ids(component_views(all@), texts(requested@)).len() == 0) by {
            reveal(Seq::filter);
        }
        return Ok(all);
    }
    let unknown = unknown_components(&all, requested);
    if unknown.len() > 0 {
        return Err(UnknownComponentError { unknown });
    }
    Ok(requested_components(&all, requested))
}

/// Whether none of the components defines a clean command, so that there is
/// nothing to run.
pub fn nothing_to_clean(components: &Vec<ComponentManifest>) -> (none: bool)
    ensures
        none == none_has_clean(component_views(components@)),
{
    let mut i: usize = 0;
    while i < components.len()
        invariant
            i <= components.len(),
            forall|k: int| 0 <= k < i ==> (#[trigger] component_views(components@)[k]).clean is None,
        decreases components.len() - i,
    {
        if components[i].clean.is_some() {
            assert(component_views(components@)[i as int].clean is Some);
            return false;
        }
        i += 1;
    }
    true
}

} // verus!
