//! The expansion engine: turning a structure's entries into deferred spawn
//! requests, and deciding in which phase each request is realised.
use vstd::prelude::*;
use crate::generation::GenerationState;
use crate::ownership::{ObjectType, Selectable};
use crate::structure::{
    entries_view, key_view, lemma_entries_view_index, lemma_entries_view_push, KeyView, Params, Structure, StructureKey,
    StructureReference, VisibilityMode,
};

verus! {

/// Where a request is placed.
#[derive(Clone, Copy, Debug, PartialEq, Eq, Structural)]
pub enum Placement {
    /// The parent's world transform composed with this local transform.
    ComposedWithParent(Params),
    /// This local transform as it stands, under the existing parent.
    Local(Params),
}

/// One operator of a structure, waiting to be realised.
pub struct SpawnRequest {
    pub key: StructureKey,
    pub placement: Placement,
    /// The bits of the parent entity, if any.
    pub parent: Option<u64>,
}

/// Where an entry is placed: a `Rand` entry perturbs the author's local
/// transform, every other entry is composed with its parent's.
pub open spec fn placement_of(k: KeyView, transform: Params) -> Placement {
    if k is Rand {
        Placement::Local(transform)
    } else {
        Placement::ComposedWithParent(transform)
    }
}

/// One request per entry of `structure`, in entry order, each carrying its
/// operator and placement under `parent`.
pub fn expansion_requests(structure: &Structure, parent: Option<u64>) -> (r: Vec<SpawnRequest>)
    ensures
        r@.len() == structure@.data.len(),
        forall|i: int| 0 <= i < r@.len() ==> {
            &&& (#[trigger] r@[i]).key@ == structure@.data[i].0
            &&& r@[i].placement == placement_of(structure@.data[i].0, structure@.data[i].1)
            &&& r@[i].parent == parent
        },
{
    proof {
        lemma_entries_view_index(structure.data@);
    }
    let mut out: Vec<SpawnRequest> = Vec::new();
    let mut i: usize = 0;
    while i < structure.data.len()
        invariant
            i <= structure.data@.len(),
            out@.len() == i,
            structure@.data.len() == structure.data@.len(),
            forall|k: int| 0 <= k < structure.data@.len() ==> #[trigger] structure@.data[k] == (key_view(structure.data@[k].0), structure.data@[k].1),
            forall|k: int| 0 <= k < i ==> {
                &&& (#[trigger] out@[k]).key@ == structure@.data[k].0
                &&& out@[k].placement == placement_of(structure@.data[k].0, structure@.data[k].1)
                &&& out@[k].parent == parent
            },
        decreases structure.data@.len() - i,
    {
        let key = structure.data[i].0.duplicate();
        let transform = structure.data[i].1;
        let placement = match key {
            StructureKey::Rand { .. } => Placement::Local(transform),
            _ => Placement::ComposedWithParent(transform),
        };
        assert(structure@.data[i as int] == (key_view(structure.data@[i as int].0), structure.data@[i as int].1));
        out.push(SpawnRequest { key, placement, parent });
        i += 1;
    }
    out
}

/// The two nestings of an unmirrored-children reflection: the reference at
/// its own transform, and the same reference at the mirrored transform.
pub fn reflection_nests(reference: &StructureReference, transform: Params, mirrored: Params, parent: Option<u64>) -> (r: Vec<SpawnRequest>)
    ensures
        r@.len() == 2,
        r@[0].key@ == KeyView::Nest(reference@),
        r@[1].key@ == KeyView::Nest(reference@),
        r@[0].placement == Placement::ComposedWithParent(transform),
        r@[1].placement == Placement::ComposedWithParent(mirrored),
        r@[0].parent == parent,
        r@[1].parent == parent,
{
    let mut out: Vec<SpawnRequest> = Vec::new();
    out.push(SpawnRequest { key: StructureKey::Nest(reference.duplicate()), placement: Placement::ComposedWithParent(transform), parent });
    out.push(SpawnRequest { key: StructureKey::Nest(reference.duplicate()), placement: Placement::ComposedWithParent(mirrored), parent });
    out
}

/// The composite of a children-mirroring reflection: each entry followed by
/// a copy of it at its mirrored transform; named after the original, with no
/// tags.
pub fn reflection_composite(structure: &Structure, mirrored: &Vec<Params>) -> (r: Structure)
    requires
        mirrored@.len() == structure.data@.len(),
    ensures
        r@.name == structure@.name + " (+Reflected)"@,
        r@.tags.len() == 0,
        r@.data.len() == 2 * structure@.data.len(),
        forall|i: int| 0 <= i < structure@.data.len() ==> r@.data[2 * i] == structure@.data[i] && r@.data[2 * i + 1] == (
            structure@.data[i].0,
            mirrored@[i],
        ),
{
    proof {
        lemma_entries_view_index(structure.data@);
    }
    let mut data: Vec<(StructureKey, Params)> = Vec::new();
    let mut i: usize = 0;
    while i < structure.data.len()
        invariant
            i <= structure.data@.len(),
            mirrored@.len() == structure.data@.len(),
            structure@.data.len() == structure.data@.len(),
            forall|k: int| 0 <= k < structure.data@.len() ==> #[trigger] structure@.data[k] == (key_view(structure.data@[k].0), structure.data@[k].1),
            entries_view(data@).len() == 2 * i,
            forall|k: int| 0 <= k < i ==> entries_view(data@)[2 * k] == structure@.data[k] && entries_view(data@)[2 * k + 1] == (
                structure@.data[k].0,
                mirrored@[k],
            ),
        decreases structure.data@.len() - i,
    {
        let ghost before = data@;
        let original = structure.data[i].0.duplicate();
        let copy = structure.data[i].0.duplicate();
        proof {
            lemma_entries_view_push(data@, (original, structure.data@[i as int].1));
        }
        data.push((original, structure.data[i].1));
        let ghost middle = data@;
        proof {
            lemma_entries_view_push(data@, (copy, mirrored@[i as int]));
        }
        data.push((copy, mirrored[i]));
        proof {
            lemma_entries_view_index(before);
            lemma_entries_view_index(middle);
            lemma_entries_view_index(data@);
            assert forall|k: int| 0 <= k < i + 1 implies entries_view(data@)[2 * k] == structure@.data[k] && entries_view(data@)[2 * k + 1] == (
                structure@.data[k].0,
                mirrored@[k],
            ) by {
                if k < i {
                    assert(entries_view(data@)[2 * k] == entries_view(before)[2 * k]);
                    assert(entries_view(data@)[2 * k + 1] == entries_view(before)[2 * k + 1]);
                }
            }
        }
        i += 1;
    }
    let mut name = structure.structure_name.clone();
    name.append(" (+Reflected)");
    Structure { structure_name: name, tags: Vec::new(), data }
}

/// In which phase a request is realised.
#[derive(Clone, Copy, Debug, PartialEq, Eq, Structural)]
pub enum Route {
    /// Realise it in this tick.
    RealizeNow,
    /// Keep it until path resolution.
    BufferForPathResolve,
    /// Keep it until the next `Generating` phase.
    HoldForGenerating,
    /// Keep it in the pass backlog until the given pass.
    DeferToPass(u8),
}

/// Path-to-tag requests are resolved only in `PathResolve`; `InPass` work
/// waits for its pass; everything else, path spawns included, is realised
/// while `Generating`.
pub open spec fn route_of(k: KeyView, state: GenerationState) -> Route {
    match k {
        KeyView::InPass { index, .. } => Route::DeferToPass(index),
        KeyView::PathToTag { .. } | KeyView::PathToAllTags { .. } => if state == GenerationState::PathResolve {
            Route::RealizeNow
        } else {
            Route::BufferForPathResolve
        },
        _ => if state == GenerationState::Generating {
            Route::RealizeNow
        } else {
            Route::HoldForGenerating
        },
    }
}

/// Decides in which phase a request is realised (see [`route_of`]).
pub fn route_request(key: &StructureKey, state: GenerationState) -> (r: Route)
    ensures
        r == route_of(key@, state),
{
    match key {
        StructureKey::InPass { index, .. } => Route::DeferToPass(*index),
        StructureKey::PathToTag { .. } | StructureKey::PathToAllTags { .. } => {
            if state == GenerationState::PathResolve {
                Route::RealizeNow
            } else {
                Route::BufferForPathResolve
            }
        },
        _ => {
            if state == GenerationState::Generating {
                Route::RealizeNow
            } else {
                Route::HoldForGenerating
            }
        },
    }
}

/// `path` without its trailing slashes.
pub open spec fn trim_trailing_slashes(path: Seq<char>) -> Seq<char>
    decreases path.len(),
{
    if path.len() > 0 && path.last() == '/' {
        trim_trailing_slashes(path.drop_last())
    } else {
        path
    }
}

/// The text after the last slash of `path` (all of it when there is none).
pub open spec fn after_last_slash(path: Seq<char>) -> Seq<char>
    decreases path.len(),
{
    if path.len() == 0 {
        path
    } else if path.last() == '/' {
        Seq::empty()
    } else {
        after_last_slash(path.drop_last()).push(path.last())
    }
}

/// The name of a placed scene: the last segment of its asset path, or
/// `Unnamed Scene` when the path ends in no name.
pub open spec fn scene_name(path: Seq<char>) -> Seq<char> {
    let f = after_last_slash(trim_trailing_slashes(path));
    if f.len() == 0 || f == ".."@ {
        "Unnamed Scene"@
    } else {
        f
    }
}

/// The name of a placed scene (see [`scene_name`]).
pub fn scene_name_of(path: &str) -> (r: String)
    ensures
        r@ == scene_name(path@),
{
    let n = path.unicode_len();
    let mut end = n;
    assert(path@.subrange(0, n as int) =~= path@);
    while end > 0 && path.get_char(end - 1) == '/'
        invariant
            end <= n,
            n == path@.len(),
            trim_trailing_slashes(path@) == trim_trailing_slashes(path@.subrange(0, end as int)),
        decreases end,
    {
        assert(path@.subrange(0, end as int).drop_last() =~= path@.subrange(0, end - 1));
        end -= 1;
    }
    assert(path@.subrange(0, end as int).len() == 0 || path@.subrange(0, end as int).last() != '/');
    let ghost trimmed = path@.subrange(0, end as int);
    assert(trim_trailing_slashes(trimmed) == trimmed);
    let mut start = end;
    while start > 0 && path.get_char(start - 1) != '/'
        invariant
            start <= end <= n,
            n == path@.len(),
            trimmed == path@.subrange(0, end as int),
            after_last_slash(trimmed) == after_last_slash(path@.subrange(0, start as int)) + path@.subrange(start as int, end as int),
        decreases start,
    {
        let ghost pre = path@.subrange(0, start as int);
        assert(pre.drop_last() =~= path@.subrange(0, start - 1));
        assert(path@.subrange(start - 1, end as int) =~= seq![pre.last()] + path@.subrange(start as int, end as int));
        assert(after_last_slash(pre) == after_last_slash(pre.drop_last()).push(pre.last()));
        assert(after_last_slash(pre.drop_last()).push(pre.last()) + path@.subrange(start as int, end as int)
            =~= after_last_slash(pre.drop_last()) + path@.subrange(start - 1, end as int));
        start -= 1;
    }
    assert(after_last_slash(path@.subrange(0, start as int)) =~= Seq::<char>::empty());
    assert(after_last_slash(trimmed) =~= path@.subrange(start as int, end as int));
    let name = path.substring_char(start, end);
    let dots = String::from_str("..");
    let candidate = String::from_str(name);
    if end == start || candidate == dots {
        String::from_str("Unnamed Scene")
    } else {
        candidate
    }
}

/// How a placed object is set up in the world.
pub struct ObjectPlan {
    pub name: String,
    /// The visibility to set; `None` leaves it to the ancestors.
    pub visibility: Option<VisibilityMode>,
    pub selectable: Option<Selectable>,
    /// The collider is queued to shape the navmesh once it is built.
    pub queue_navmesh_affector: bool,
    /// The object gets a pathfinder, starting where it is placed.
    pub pathfinder: bool,
}

/// Plans an object: named after its scene; visible unless authored
/// otherwise (an inherited visibility sets nothing); selectable objects
/// start unselected; an object with a collider shapes the navmesh, except a
/// unit, which gets a pathfinder instead.
pub fn object_plan(
    path: &str,
    selectable: bool,
    object_type: ObjectType,
    visibility: Option<VisibilityMode>,
    has_collider: bool,
) -> (r: ObjectPlan)
    ensures
        r.name@ == scene_name(path@),
        r.visibility == match visibility {
            None => Some(VisibilityMode::Visible),
            Some(VisibilityMode::Inherit) => None,
            Some(v) => Some(v),
        },
        r.selectable == if selectable { Some(Selectable { is_selected: false }) } else { None },
        r.queue_navmesh_affector == (has_collider && object_type != ObjectType::Unit),
        r.pathfinder == (has_collider && object_type == ObjectType::Unit),
{
    let mode = match visibility {
        None => Some(VisibilityMode::Visible),
        Some(VisibilityMode::Inherit) => None,
        Some(v) => Some(v),
    };
    let is_unit = match object_type {
        ObjectType::Unit => true,
        _ => false,
    };
    ObjectPlan {
        name: scene_name_of(path),
        visibility: mode,
        selectable: if selectable { Some(Selectable { is_selected: false }) } else { None },
        queue_navmesh_affector: has_collider && !is_unit,
        pathfinder: has_collider && is_unit,
    }
}

} // verus!
