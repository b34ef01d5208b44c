//! The declarative structure model: named structures made of ordered
//! (operator, transform) entries, references between structures, and the
//! rules by which team ownership flows down a structure tree.
use vstd::prelude::*;
use crate::ownership::{ObjectType, Ownership};
use crate::scatter::{SampleSize, SeededOrNot};
use crate::importer::StructureCache;
use crate::random::sample_indices;
use bevy_prng::WyRand;

verus! {

/// How a placed object is shown.
#[derive(Clone, Copy, Debug, PartialEq, Eq, Structural)]
pub enum VisibilityMode {
    Visible,
    Hidden,
    /// Shown as its ancestors are.
    Inherit,
}

/// Handle to the numeric settings that belong to an entry: its local
/// transform, light and fog settings, spline, loop and noise parameters.
/// They are held by the host next to the structure; the composition logic
/// here only carries them.
#[derive(Clone, Copy, Debug, PartialEq, Eq, Structural)]
pub struct Params(pub u64);

/// A named, declarative scene fragment.
#[derive(Debug)]
pub struct Structure {
    pub structure_name: String,
    pub tags: Vec<String>,
    /// Ordered entries: an operator and the handle of its local transform.
    pub data: Vec<(StructureKey, Params)>,
}

/// A structure used from inside another one.
#[derive(Debug)]
pub enum StructureReference {
    /// An embedded structure.
    Raw { structure: Box<Structure>, ownership: Ownership },
    /// A structure looked up by name.
    Ref { structure: String, ownership: Ownership },
}

/// One composition operator of a structure entry.
#[derive(Debug)]
pub enum StructureKey {
    Object {
        path: String,
        ownership: Ownership,
        selectable: bool,
        object_type: ObjectType,
        visibility: Option<VisibilityMode>,
        settings: Params,
    },
    PointLight(Params),
    SpotLight(Params),
    SoundEffect(String),
    DirectionalLight(Params),
    MainDirectionalLight(Params),
    AmbientLight(Params),
    DistanceFog(Params),
    BackgroundMusic(String),
    AtmosphereNishita { align_to_main_light: bool, settings: Params },
    Nest(StructureReference),
    Choose { list: StructureReference },
    ChooseSome { list: StructureReference, count: usize },
    Rand { reference: StructureReference, settings: Params },
    ProbabilitySpawn { reference: StructureReference, settings: Params },
    InPass { index: u8, reference: StructureReference },
    Loop { reference: StructureReference, count: usize, settings: Params },
    LoopParam { reference: StructureReference, count: usize, settings: Params },
    NestingLoop { reference: StructureReference, count: usize, settings: Params },
    NoiseSpawn { reference: StructureReference, seed: SeededOrNot, sample_size: SampleSize, count: u32, settings: Params },
    PathSpawn { reference: StructureReference, count: u32, settings: Params },
    PathToTag { reference: StructureReference, tag: String, count: u32, store_as: Option<String>, settings: Params },
    PathToAllTags { reference: StructureReference, tag: String, count: u32, store_as: Option<String>, settings: Params },
    RandDistDir { reference: StructureReference, settings: Params },
    Reflection { reference: StructureReference, reflect_child: bool, settings: Params },
    SelectiveReplacement {
        initial_reference: StructureReference,
        replacement_reference: StructureReference,
        tags: Vec<String>,
        replace_count: usize,
    },
}

/// Why a structure could not be resolved or expanded.
#[derive(Clone, Debug)]
pub enum StructureError {
    /// The named structure is already being expanded further up the chain.
    CycleDetected(String),
    /// The named structure could not be imported.
    ImportFailed(String),
    /// The expansion chain reached its depth limit at the named structure.
    MaxDepthExceeded(String),
    Other(String),
    /// A reference with `Inherit` ownership was resolved with no enclosing
    /// structure to inherit from.
    InheritOwnershipAtTopLevel(String),
}

/// The mathematical value of a [`Structure`].
pub struct StructureView {
    pub name: Seq<char>,
    pub tags: Seq<Seq<char>>,
    pub data: Seq<(KeyView, Params)>,
}

/// The mathematical value of a [`StructureReference`].
pub enum RefView {
    Raw { structure: StructureView, ownership: Ownership },
    Ref { name: Seq<char>, ownership: Ownership },
}

/// The mathematical value of a [`StructureKey`].
pub enum KeyView {
    Object {
        path: Seq<char>,
        ownership: Ownership,
        selectable: bool,
        object_type: ObjectType,
        visibility: Option<VisibilityMode>,
        settings: Params,
    },
    PointLight(Params),
    SpotLight(Params),
    SoundEffect(Seq<char>),
    DirectionalLight(Params),
    MainDirectionalLight(Params),
    AmbientLight(Params),
    DistanceFog(Params),
    BackgroundMusic(Seq<char>),
    AtmosphereNishita { align_to_main_light: bool, settings: Params },
    Nest(RefView),
    Choose { list: RefView },
    ChooseSome { list: RefView, count: usize },
    Rand { reference: RefView, settings: Params },
    ProbabilitySpawn { reference: RefView, settings: Params },
    InPass { index: u8, reference: RefView },
    Loop { reference: RefView, count: usize, settings: Params },
    LoopParam { reference: RefView, count: usize, settings: Params },
    NestingLoop { reference: RefView, count: usize, settings: Params },
    NoiseSpawn { reference: RefView, seed: SeededOrNot, sample_size: SampleSize, count: u32, settings: Params },
    PathSpawn { reference: RefView, count: u32, settings: Params },
    PathToTag { reference: RefView, tag: Seq<char>, count: u32, store_as: Option<Seq<char>>, settings: Params },
    PathToAllTags { reference: RefView, tag: Seq<char>, count: u32, store_as: Option<Seq<char>>, settings: Params },
    RandDistDir { reference: RefView, settings: Params },
    Reflection { reference: RefView, reflect_child: bool, settings: Params },
    SelectiveReplacement {
        initial_reference: RefView,
        replacement_reference: RefView,
        tags: Seq<Seq<char>>,
        replace_count: usize,
    },
}

/// The views of a list of strings.
pub open spec fn strings_view(v: Seq<String>) -> Seq<Seq<char>> {
    Seq::new(v.len(), |i: int| v[i]@)
}

pub open spec fn structure_view(s: Structure) -> StructureView
    decreases s,
{
    StructureView { name: s.structure_name@, tags: strings_view(s.tags@), data: entries_view(s.data@) }
}

pub open spec fn entries_view(d: Seq<(StructureKey, Params)>) -> Seq<(KeyView, Params)>
    decreases d,
{
    if d.len() == 0 {
        Seq::empty()
    } else {
        entries_view(d.subrange(0, d.len() - 1)).push((key_view(d[d.len() - 1].0), d[d.len() - 1].1))
    }
}

pub open spec fn ref_view(r: StructureReference) -> RefView
    decreases r,
{
    match r {
        StructureReference::Raw { structure, ownership } => RefView::Raw { structure: structure_view(*structure), ownership },
        StructureReference::Ref { structure, ownership } => RefView::Ref { name: structure@, ownership },
    }
}

pub open spec fn key_view(k: StructureKey) -> KeyView
    decreases k,
{
    match k {
        StructureKey::Object { path, ownership, selectable, object_type, visibility, settings } =>
            KeyView::Object { path: path@, ownership, selectable, object_type, visibility, settings },
        StructureKey::PointLight(p) => KeyView::PointLight(p),
        StructureKey::SpotLight(p) => KeyView::SpotLight(p),
        StructureKey::SoundEffect(f) => KeyView::SoundEffect(f@),
        StructureKey::DirectionalLight(p) => KeyView::DirectionalLight(p),
        StructureKey::MainDirectionalLight(p) => KeyView::MainDirectionalLight(p),
        StructureKey::AmbientLight(p) => KeyView::AmbientLight(p),
        StructureKey::DistanceFog(p) => KeyView::DistanceFog(p),
        StructureKey::BackgroundMusic(f) => KeyView::BackgroundMusic(f@),
        StructureKey::AtmosphereNishita { align_to_main_light, settings } =>
            KeyView::AtmosphereNishita { align_to_main_light, settings },
        StructureKey::Nest(r) => KeyView::Nest(ref_view(r)),
        StructureKey::Choose { list } => KeyView::Choose { list: ref_view(list) },
        StructureKey::ChooseSome { list, count } => KeyView::ChooseSome { list: ref_view(list), count },
        StructureKey::Rand { reference, settings } => KeyView::Rand { reference: ref_view(reference), settings },
        StructureKey::ProbabilitySpawn { reference, settings } =>
            KeyView::ProbabilitySpawn { reference: ref_view(reference), settings },
        StructureKey::InPass { index, reference } => KeyView::InPass { index, reference: ref_view(reference) },
        StructureKey::Loop { reference, count, settings } => KeyView::Loop { reference: ref_view(reference), count, settings },
        StructureKey::LoopParam { reference, count, settings } =>
            KeyView::LoopParam { reference: ref_view(reference), count, settings },
        StructureKey::NestingLoop { reference, count, settings } =>
            KeyView::NestingLoop { reference: ref_view(reference), count, settings },
        StructureKey::NoiseSpawn { reference, seed, sample_size, count, settings } =>
            KeyView::NoiseSpawn { reference: ref_view(reference), seed, sample_size, count, settings },
        StructureKey::PathSpawn { reference, count, settings } =>
            KeyView::PathSpawn { reference: ref_view(reference), count, settings },
        StructureKey::PathToTag { reference, tag, count, store_as, settings } =>
            KeyView::PathToTag { reference: ref_view(reference), tag: tag@, count, store_as: label_view(store_as), settings },
        StructureKey::PathToAllTags { reference, tag, count, store_as, settings } =>
            KeyView::PathToAllTags { reference: ref_view(reference), tag: tag@, count, store_as: label_view(store_as), settings },
        StructureKey::RandDistDir { reference, settings } => KeyView::RandDistDir { reference: ref_view(reference), settings },
        StructureKey::Reflection { reference, reflect_child, settings } =>
            KeyView::Reflection { reference: ref_view(reference), reflect_child, settings },
        StructureKey::SelectiveReplacement { initial_reference, replacement_reference, tags, replace_count } =>
            KeyView::SelectiveReplacement {
                initial_reference: ref_view(initial_reference),
                replacement_reference: ref_view(replacement_reference),
                tags: strings_view(tags@),
                replace_count,
            },
    }
}

impl View for Structure {
    type V = StructureView;

    open spec fn view(&self) -> StructureView {
        structure_view(*self)
    }
}

impl View for StructureReference {
    type V = RefView;

    open spec fn view(&self) -> RefView {
        ref_view(*self)
    }
}

impl View for StructureKey {
    type V = KeyView;

    open spec fn view(&self) -> KeyView {
        key_view(*self)
    }
}

pub open spec fn label_view(label: Option<String>) -> Option<Seq<char>> {
    match label {
        Some(s) => Some(s@),
        None => None,
    }
}

fn copy_label(label: &Option<String>) -> (r: Option<String>)
    ensures
        label_view(r) == label_view(*label),
{
    match label {
        Some(s) => Some(s.clone()),
        None => None,
    }
}

/// Copies a list of tags.
pub fn copy_tags(tags: &Vec<String>) -> (r: Vec<String>)
    ensures
        r@ == tags@,
{
    let mut out: Vec<String> = Vec::new();
    let mut i: usize = 0;
    while i < tags.len()
        invariant
            i <= tags@.len(),
            out@ == tags@.subrange(0, i as int),
        decreases tags@.len() - i,
    {
        out.push(tags[i].clone());
        i += 1;
    }
    assert(out@ =~= tags@);
    out
}

impl Structure {
    /// A deep copy of this structure.
    pub fn duplicate(&self) -> (r: Structure)
        ensures
            r@ == self@,
        decreases self,
    {
        let mut data: Vec<(StructureKey, Params)> = Vec::new();
        let mut i: usize = 0;
        while i < self.data.len()
            invariant
                i <= self.data@.len(),
                entries_view(data@) == entries_view(self.data@.subrange(0, i as int)),
            decreases self.data@.len() - i,
        {
            assert(decreases_to!(self => self.data@[i as int].0));
            let key = self.data[i].0.duplicate();
            let ghost before = data@;
            data.push((key, self.data[i].1));
            assert(data@.subrange(0, data@.len() - 1) =~= before);
            assert(self.data@.subrange(0, i + 1).subrange(0, i as int) =~= self.data@.subrange(0, i as int));
            i += 1;
        }
        assert(self.data@.subrange(0, self.data@.len() as int) =~= self.data@);
        Structure { structure_name: self.structure_name.clone(), tags: copy_tags(&self.tags), data }
    }
}

impl StructureReference {
    /// A deep copy of this reference.
    pub fn duplicate(&self) -> (r: StructureReference)
        ensures
            r@ == self@,
        decreases self,
    {
        match self {
            StructureReference::Raw { structure, ownership } => {
                let s = (**structure).duplicate();
                StructureReference::Raw { structure: Box::new(s), ownership: *ownership }
            },
            StructureReference::Ref { structure, ownership } => {
                StructureReference::Ref { structure: structure.clone(), ownership: *ownership }
            },
        }
    }
}

impl StructureKey {
    /// A deep copy of this operator.
    pub fn duplicate(&self) -> (r: StructureKey)
        ensures
            r@ == self@,
        decreases self,
    {
        match self {
            StructureKey::Object { path, ownership, selectable, object_type, visibility, settings } => StructureKey::Object {
                path: path.clone(),
                ownership: *ownership,
                selectable: *selectable,
                object_type: *object_type,
                visibility: *visibility,
                settings: *settings,
            },
            StructureKey::PointLight(p) => StructureKey::PointLight(*p),
            StructureKey::SpotLight(p) => StructureKey::SpotLight(*p),
            StructureKey::SoundEffect(f) => StructureKey::SoundEffect(f.clone()),
            StructureKey::DirectionalLight(p) => StructureKey::DirectionalLight(*p),
            StructureKey::MainDirectionalLight(p) => StructureKey::MainDirectionalLight(*p),
            StructureKey::AmbientLight(p) => StructureKey::AmbientLight(*p),
            StructureKey::DistanceFog(p) => StructureKey::DistanceFog(*p),
            StructureKey::BackgroundMusic(f) => StructureKey::BackgroundMusic(f.clone()),
            StructureKey::AtmosphereNishita { align_to_main_light, settings } => StructureKey::AtmosphereNishita {
                align_to_main_light: *align_to_main_light,
                settings: *settings,
            },
            StructureKey::Nest(r) => StructureKey::Nest(r.duplicate()),
            StructureKey::Choose { list } => StructureKey::Choose { list: list.duplicate() },
            StructureKey::ChooseSome { list, count } => StructureKey::ChooseSome { list: list.duplicate(), count: *count },
            StructureKey::Rand { reference, settings } => StructureKey::Rand { reference: reference.duplicate(), settings: *settings },
            StructureKey::ProbabilitySpawn { reference, settings } => StructureKey::ProbabilitySpawn {
                reference: reference.duplicate(),
                settings: *settings,
            },
            StructureKey::InPass { index, reference } => StructureKey::InPass { index: *index, reference: reference.duplicate() },
            StructureKey::Loop { reference, count, settings } => StructureKey::Loop {
                reference: reference.duplicate(),
                count: *count,
                settings: *settings,
            },
            StructureKey::LoopParam { reference, count, settings } => StructureKey::LoopParam {
                reference: reference.duplicate(),
                count: *count,
                settings: *settings,
            },
            StructureKey::NestingLoop { reference, count, settings } => StructureKey::NestingLoop {
                reference: reference.duplicate(),
                count: *count,
                settings: *settings,
            },
            StructureKey::NoiseSpawn { reference, seed, sample_size, count, settings } => StructureKey::NoiseSpawn {
                reference: reference.duplicate(),
                seed: *seed,
                sample_size: *sample_size,
                count: *count,
                settings: *settings,
            },
            StructureKey::PathSpawn { reference, count, settings } => StructureKey::PathSpawn {
                reference: reference.duplicate(),
                count: *count,
                settings: *settings,
            },
            StructureKey::PathToTag { reference, tag, count, store_as, settings } => StructureKey::PathToTag {
                reference: reference.duplicate(),
                tag: tag.clone(),
                count: *count,
                store_as: copy_label(store_as),
                settings: *settings,
            },
            StructureKey::PathToAllTags { reference, tag, count, store_as, settings } => StructureKey::PathToAllTags {
                reference: reference.duplicate(),
                tag: tag.clone(),
                count: *count,
                store_as: copy_label(store_as),
                settings: *settings,
            },
            StructureKey::RandDistDir { reference, settings } => StructureKey::RandDistDir {
                reference: reference.duplicate(),
                settings: *settings,
            },
            StructureKey::Reflection { reference, reflect_child, settings } => StructureKey::Reflection {
                reference: reference.duplicate(),
                reflect_child: *reflect_child,
                settings: *settings,
            },
            StructureKey::SelectiveReplacement { initial_reference, replacement_reference, tags, replace_count } => {
                StructureKey::SelectiveReplacement {
                    initial_reference: initial_reference.duplicate(),
                    replacement_reference: replacement_reference.duplicate(),
                    tags: copy_tags(tags),
                    replace_count: *replace_count,
                }
            },
        }
    }
}

/// The structure after team `t` has been handed down into it: every object
/// and reference holding `Inherit` takes `Team(t)`, and embedded structures
/// reached through such a reference take it too. A reference that already
/// names a team is left exactly as it is, contents included.
pub open spec fn structure_with_team(s: StructureView, t: u8) -> StructureView
    decreases s,
{
    StructureView { name: s.name, tags: s.tags, data: entries_with_team(s.data, t) }
}

pub open spec fn entries_with_team(d: Seq<(KeyView, Params)>, t: u8) -> Seq<(KeyView, Params)>
    decreases d,
{
    if d.len() == 0 {
        Seq::empty()
    } else {
        entries_with_team(d.subrange(0, d.len() - 1), t).push((key_with_team(d[d.len() - 1].0, t), d[d.len() - 1].1))
    }
}

pub open spec fn ref_with_team(r: RefView, t: u8) -> RefView
    decreases r,
{
    match r {
        RefView::Raw { structure, ownership } => match ownership {
            Ownership::Inherit => RefView::Raw { structure: structure_with_team(structure, t), ownership: Ownership::Team(t) },
            Ownership::Team(_) => r,
        },
        RefView::Ref { name, ownership } => RefView::Ref { name, ownership: ownership.inherited(t) },
    }
}

pub open spec fn key_with_team(k: KeyView, t: u8) -> KeyView
    decreases k,
{
    match k {
        KeyView::Object { path, ownership, selectable, object_type, visibility, settings } =>
            KeyView::Object { path, ownership: ownership.inherited(t), selectable, object_type, visibility, settings },
        KeyView::Nest(r) => KeyView::Nest(ref_with_team(r, t)),
        KeyView::Choose { list } => KeyView::Choose { list: ref_with_team(list, t) },
        KeyView::ChooseSome { list, count } => KeyView::ChooseSome { list: ref_with_team(list, t), count },
        KeyView::Rand { reference, settings } => KeyView::Rand { reference: ref_with_team(reference, t), settings },
        KeyView::ProbabilitySpawn { reference, settings } =>
            KeyView::ProbabilitySpawn { reference: ref_with_team(reference, t), settings },
        KeyView::InPass { index, reference } => KeyView::InPass { index, reference: ref_with_team(reference, t) },
        KeyView::Loop { reference, count, settings } => KeyView::Loop { reference: ref_with_team(reference, t), count, settings },
        KeyView::LoopParam { reference, count, settings } =>
            KeyView::LoopParam { reference: ref_with_team(reference, t), count, settings },
        KeyView::NestingLoop { reference, count, settings } =>
            KeyView::NestingLoop { reference: ref_with_team(reference, t), count, settings },
        KeyView::NoiseSpawn { reference, seed, sample_size, count, settings } =>
            KeyView::NoiseSpawn { reference: ref_with_team(reference, t), seed, sample_size, count, settings },
        KeyView::PathSpawn { reference, count, settings } =>
            KeyView::PathSpawn { reference: ref_with_team(reference, t), count, settings },
        KeyView::PathToTag { reference, tag, count, store_as, settings } =>
            KeyView::PathToTag { reference: ref_with_team(reference, t), tag, count, store_as, settings },
        KeyView::PathToAllTags { reference, tag, count, store_as, settings } =>
            KeyView::PathToAllTags { reference: ref_with_team(reference, t), tag, count, store_as, settings },
        KeyView::RandDistDir { reference, settings } => KeyView::RandDistDir { reference: ref_with_team(reference, t), settings },
        KeyView::Reflection { reference, reflect_child, settings } =>
            KeyView::Reflection { reference: ref_with_team(reference, t), reflect_child, settings },
        KeyView::SelectiveReplacement { initial_reference, replacement_reference, tags, replace_count } =>
            KeyView::SelectiveReplacement {
                initial_reference: ref_with_team(initial_reference, t),
                replacement_reference: ref_with_team(replacement_reference, t),
                tags,
                replace_count,
            },
        _ => k,
    }
}

pub(crate) proof fn lemma_entries_view_push(d: Seq<(StructureKey, Params)>, e: (StructureKey, Params))
    ensures
        entries_view(d.push(e)) == entries_view(d).push((key_view(e.0), e.1)),
{
    assert(d.push(e).subrange(0, d.len() as int) =~= d);
}

proof fn lemma_entries_with_team_push(d: Seq<(KeyView, Params)>, e: (KeyView, Params), t: u8)
    ensures
        entries_with_team(d.push(e), t) == entries_with_team(d, t).push((key_with_team(e.0, t), e.1)),
{
    assert(d.push(e).subrange(0, d.len() as int) =~= d);
}

fn structure_into_team(s: Structure, t: u8) -> (r: Structure)
    ensures
        r@ == structure_with_team(s@, t),
    decreases s,
{
    let ghost orig = s;
    let Structure { structure_name, tags, data } = s;
    let mut rest = data;
    let mut out: Vec<(StructureKey, Params)> = Vec::new();
    let n = rest.len();
    let mut i: usize = 0;
    while i < n
        invariant
            orig == s,
            n == orig.data@.len(),
            i <= n,
            rest@ == orig.data@.subrange(i as int, n as int),
            entries_view(out@) == entries_with_team(entries_view(orig.data@.subrange(0, i as int)), t),
        decreases n - i,
    {
        let (key, params) = rest.remove(0);
        assert(key == orig.data@[i as int].0);
        assert(decreases_to!(orig => orig.data@[i as int].0));
        let new_key = key_into_team(key, t);
        proof {
            lemma_entries_view_push(out@, (new_key, params));
            lemma_entries_view_push(orig.data@.subrange(0, i as int), orig.data@[i as int]);
            assert(orig.data@.subrange(0, i + 1) =~= orig.data@.subrange(0, i as int).push(orig.data@[i as int]));
            lemma_entries_with_team_push(entries_view(orig.data@.subrange(0, i as int)), (key_view(key), params), t);
        }
        out.push((new_key, params));
        assert(rest@ =~= orig.data@.subrange(i + 1, n as int));
        i += 1;
    }
    assert(orig.data@.subrange(0, n as int) =~= orig.data@);
    Structure { structure_name, tags, data: out }
}

fn reference_into_team(r: StructureReference, t: u8) -> (out: StructureReference)
    ensures
        out@ == ref_with_team(r@, t),
    decreases r,
{
    match r {
        StructureReference::Raw { structure, ownership } => match ownership {
            Ownership::Inherit => {
                let inner = structure_into_team(*structure, t);
                StructureReference::Raw { structure: Box::new(inner), ownership: Ownership::Team(t) }
            },
            Ownership::Team(u) => StructureReference::Raw { structure, ownership: Ownership::Team(u) },
        },
        StructureReference::Ref { structure, ownership } => StructureReference::Ref { structure, ownership: ownership.inherit(t) },
    }
}

fn key_into_team(k: StructureKey, t: u8) -> (r: StructureKey)
    ensures
        r@ == key_with_team(k@, t),
    decreases k,
{
    match k {
        StructureKey::Object { path, ownership, selectable, object_type, visibility, settings } =>
            StructureKey::Object { path, ownership: ownership.inherit(t), selectable, object_type, visibility, settings },
        StructureKey::Nest(r) => StructureKey::Nest(reference_into_team(r, t)),
        StructureKey::Choose { list } => StructureKey::Choose { list: reference_into_team(list, t) },
        StructureKey::ChooseSome { list, count } => StructureKey::ChooseSome { list: reference_into_team(list, t), count },
        StructureKey::Rand { reference, settings } => StructureKey::Rand { reference: reference_into_team(reference, t), settings },
        StructureKey::ProbabilitySpawn { reference, settings } =>
            StructureKey::ProbabilitySpawn { reference: reference_into_team(reference, t), settings },
        StructureKey::InPass { index, reference } => StructureKey::InPass { index, reference: reference_into_team(reference, t) },
        StructureKey::Loop { reference, count, settings } =>
            StructureKey::Loop { reference: reference_into_team(reference, t), count, settings },
        StructureKey::LoopParam { reference, count, settings } =>
            StructureKey::LoopParam { reference: reference_into_team(reference, t), count, settings },
        StructureKey::NestingLoop { reference, count, settings } =>
            StructureKey::NestingLoop { reference: reference_into_team(reference, t), count, settings },
        StructureKey::NoiseSpawn { reference, seed, sample_size, count, settings } =>
            StructureKey::NoiseSpawn { reference: reference_into_team(reference, t), seed, sample_size, count, settings },
        StructureKey::PathSpawn { reference, count, settings } =>
            StructureKey::PathSpawn { reference: reference_into_team(reference, t), count, settings },
        StructureKey::PathToTag { reference, tag, count, store_as, settings } =>
            StructureKey::PathToTag { reference: reference_into_team(reference, t), tag, count, store_as, settings },
        StructureKey::PathToAllTags { reference, tag, count, store_as, settings } =>
            StructureKey::PathToAllTags { reference: reference_into_team(reference, t), tag, count, store_as, settings },
        StructureKey::RandDistDir { reference, settings } =>
            StructureKey::RandDistDir { reference: reference_into_team(reference, t), settings },
        StructureKey::Reflection { reference, reflect_child, settings } =>
            StructureKey::Reflection { reference: reference_into_team(reference, t), reflect_child, settings },
        StructureKey::SelectiveReplacement { initial_reference, replacement_reference, tags, replace_count } =>
            StructureKey::SelectiveReplacement {
                initial_reference: reference_into_team(initial_reference, t),
                replacement_reference: reference_into_team(replacement_reference, t),
                tags,
                replace_count,
            },
        other => other,
    }
}

/// Hands team `team_id` down into `structure` (see [`structure_with_team`]).
pub fn propagate_team_ownership(structure: &mut Structure, team_id: u8)
    ensures
        final(structure)@ == structure_with_team(old(structure)@, team_id),
{
    let mut taken = Structure { structure_name: String::new(), tags: Vec::new(), data: Vec::new() };
    std::mem::swap(structure, &mut taken);
    *structure = structure_into_team(taken, team_id);
}

/// Hands team `team_id` down into one reference (see [`ref_with_team`]).
pub fn update_ownership(reference: &mut StructureReference, team_id: u8)
    ensures
        final(reference)@ == ref_with_team(old(reference)@, team_id),
{
    let mut taken = StructureReference::Ref { structure: String::new(), ownership: Ownership::Inherit };
    std::mem::swap(reference, &mut taken);
    *reference = reference_into_team(taken, team_id);
}

/// The mathematical value of a [`StructureError`].
pub enum ErrorView {
    CycleDetected(Seq<char>),
    ImportFailed(Seq<char>),
    MaxDepthExceeded(Seq<char>),
    Other(Seq<char>),
    InheritOwnershipAtTopLevel(Seq<char>),
}

impl View for StructureError {
    type V = ErrorView;

    open spec fn view(&self) -> ErrorView {
        match self {
            StructureError::CycleDetected(s) => ErrorView::CycleDetected(s@),
            StructureError::ImportFailed(s) => ErrorView::ImportFailed(s@),
            StructureError::MaxDepthExceeded(s) => ErrorView::MaxDepthExceeded(s@),
            StructureError::Other(s) => ErrorView::Other(s@),
            StructureError::InheritOwnershipAtTopLevel(s) => ErrorView::InheritOwnershipAtTopLevel(s@),
        }
    }
}

pub open spec fn result_view(r: Result<Structure, StructureError>) -> Result<StructureView, ErrorView> {
    match r {
        Ok(s) => Ok(s@),
        Err(e) => Err(e@),
    }
}

/// The structure a top-level reference resolves to, given the structures
/// imported so far. `Inherit` has nothing to inherit from here and is
/// refused; a named structure must have been imported; a concrete team is
/// handed down into the copy.
pub open spec fn resolved(value: RefView, cache: Map<Seq<char>, StructureView>) -> Result<StructureView, ErrorView> {
    match value {
        RefView::Raw { structure, ownership } => match ownership {
            Ownership::Inherit => Err(ErrorView::InheritOwnershipAtTopLevel(structure.name)),
            Ownership::Team(t) => Ok(structure_with_team(structure, t)),
        },
        RefView::Ref { name, ownership } => match ownership {
            Ownership::Inherit => Err(ErrorView::InheritOwnershipAtTopLevel(name)),
            Ownership::Team(t) => if cache.contains_key(name) {
                Ok(structure_with_team(cache[name], t))
            } else {
                Err(ErrorView::ImportFailed(name))
            },
        },
    }
}

impl Structure {
    /// Resolves a top-level reference against the imported structures
    /// (see [`resolved`]).
    pub fn try_from(value: &StructureReference, cache: &StructureCache) -> (r: Result<Structure, StructureError>)
        ensures
            result_view(r) == resolved(value@, cache@),
    {
        match value {
            StructureReference::Raw { structure, ownership } => match ownership {
                Ownership::Inherit => Err(StructureError::InheritOwnershipAtTopLevel(structure.structure_name.clone())),
                Ownership::Team(t) => {
                    let mut copy = (**structure).duplicate();
                    propagate_team_ownership(&mut copy, *t);
                    Ok(copy)
                },
            },
            StructureReference::Ref { structure, ownership } => match ownership {
                Ownership::Inherit => Err(StructureError::InheritOwnershipAtTopLevel(structure.clone())),
                Ownership::Team(t) => match cache.get(structure) {
                    Some(mut imported) => {
                        propagate_team_ownership(&mut imported, *t);
                        Ok(imported)
                    },
                    None => Err(StructureError::ImportFailed(structure.clone())),
                },
            },
        }
    }
}

/// The references an operator carries, in field order.
pub open spec fn key_refs(k: KeyView) -> Seq<RefView> {
    match k {
        KeyView::Nest(r) => seq![r],
        KeyView::Choose { list } => seq![list],
        KeyView::ChooseSome { list, .. } => seq![list],
        KeyView::Rand { reference, .. } => seq![reference],
        KeyView::ProbabilitySpawn { reference, .. } => seq![reference],
        KeyView::InPass { reference, .. } => seq![reference],
        KeyView::Loop { reference, .. } => seq![reference],
        KeyView::LoopParam { reference, .. } => seq![reference],
        KeyView::NestingLoop { reference, .. } => seq![reference],
        KeyView::NoiseSpawn { reference, .. } => seq![reference],
        KeyView::PathSpawn { reference, .. } => seq![reference],
        KeyView::PathToTag { reference, .. } => seq![reference],
        KeyView::PathToAllTags { reference, .. } => seq![reference],
        KeyView::RandDistDir { reference, .. } => seq![reference],
        KeyView::Reflection { reference, .. } => seq![reference],
        KeyView::SelectiveReplacement { initial_reference, replacement_reference, .. } =>
            seq![initial_reference, replacement_reference],
        _ => seq![],
    }
}

pub open spec fn ref_structure(r: RefView) -> StructureView
    recommends
        r is Raw,
{
    match r {
        RefView::Raw { structure, .. } => structure,
        RefView::Ref { .. } => arbitrary(),
    }
}

pub open spec fn ref_ownership(r: RefView) -> Ownership {
    match r {
        RefView::Raw { ownership, .. } => ownership,
        RefView::Ref { ownership, .. } => ownership,
    }
}

/// How one reference fares when team `t` is handed down onto it.
pub open spec fn reference_takes_team(before: RefView, after: RefView, t: u8) -> bool {
    match ref_ownership(before) {
        Ownership::Team(_) => after == before,
        Ownership::Inherit => {
            &&& ref_ownership(after) == Ownership::Team(t)
            &&& before is Raw ==> after is Raw && ref_structure(after) == structure_with_team(ref_structure(before), t)
            &&& before is Ref ==> after is Ref
        },
    }
}

proof fn lemma_entries_with_team_index(d: Seq<(KeyView, Params)>, t: u8)
    ensures
        entries_with_team(d, t).len() == d.len(),
        forall|i: int| 0 <= i < d.len() ==> #[trigger] entries_with_team(d, t)[i] == (key_with_team(d[i].0, t), d[i].1),
    decreases d.len(),
{
    if d.len() > 0 {
        lemma_entries_with_team_index(d.subrange(0, d.len() - 1), t);
    }
}

/// Handing team `t` down into a structure turns every `Inherit` object of
/// it into `Team(t)` and keeps every concrete team; every reference holding
/// `Inherit` takes `Team(t)`, and an embedded one has `t` handed down into
/// its own structure in the same way; a reference already owned by a team
/// is never rewritten.
pub proof fn lemma_team_handed_down(s: StructureView, t: u8)
    ensures
        ({
            let r = structure_with_team(s, t);
            &&& r.name == s.name
            &&& r.tags == s.tags
            &&& r.data.len() == s.data.len()
            &&& forall|i: int| 0 <= i < s.data.len() ==> {
                let before = #[trigger] s.data[i].0;
                let after = r.data[i].0;
                &&& r.data[i].1 == s.data[i].1
                &&& before is Object ==> after is Object && after->Object_ownership == (match before->Object_ownership {
                    Ownership::Inherit => Ownership::Team(t),
                    Ownership::Team(u) => Ownership::Team(u),
                })
                &&& key_refs(after).len() == key_refs(before).len()
                &&& forall|j: int| 0 <= j < key_refs(before).len() ==> reference_takes_team(
                    #[trigger] key_refs(before)[j],
                    key_refs(after)[j],
                    t,
                )
            }
        }),
{
    lemma_entries_with_team_index(s.data, t);
}

/// A top-level reference holding `Inherit` has nothing to inherit from:
/// resolving it fails, whatever has been imported.
pub proof fn lemma_inherit_at_top_level_fails(value: RefView, cache: Map<Seq<char>, StructureView>)
    requires
        ref_ownership(value) == Ownership::Inherit,
    ensures
        resolved(value, cache) is Err,
        resolved(value, cache)->Err_0 is InheritOwnershipAtTopLevel,
{
}

/// What `Debug` formatting makes of a text: the text in double quotes, with
/// quotes, backslashes and control characters escaped.
pub uninterp spec fn debug_quoted(s: Seq<char>) -> Seq<char>;

/// Relies on the `Debug` formatting of `str`, through `format!`.
#[verifier::external_body]
fn debug_text(s: &str) -> (r: String)
    ensures
        r@ == debug_quoted(s@),
{
    format!("{:?}", s)
}

/// The decimal digits of `n`, most significant first.
pub open spec fn decimal(n: nat) -> Seq<char>
    decreases n,
{
    if n < 10 {
        seq![digit_char(n)]
    } else {
        decimal(n / 10).push(digit_char(n % 10))
    }
}

pub open spec fn digit_char(d: nat) -> char {
    if d == 0 { '0' } else if d == 1 { '1' } else if d == 2 { '2' } else if d == 3 { '3' } else if d == 4 { '4' }
    else if d == 5 { '5' } else if d == 6 { '6' } else if d == 7 { '7' } else if d == 8 { '8' } else { '9' }
}

fn digit_text(d: u8) -> (r: &'static str)
    requires
        d < 10,
    ensures
        r@ == seq![digit_char(d as nat)],
{
    proof {
        reveal_strlit("0");
        reveal_strlit("1");
        reveal_strlit("2");
        reveal_strlit("3");
        reveal_strlit("4");
        reveal_strlit("5");
        reveal_strlit("6");
        reveal_strlit("7");
        reveal_strlit("8");
        reveal_strlit("9");
    }
    let r = if d == 0 { "0" } else if d == 1 { "1" } else if d == 2 { "2" } else if d == 3 { "3" } else if d == 4 { "4" }
    else if d == 5 { "5" } else if d == 6 { "6" } else if d == 7 { "7" } else if d == 8 { "8" } else { "9" };
    assert(r@ =~= seq![digit_char(d as nat)]);
    r
}

/// The decimal text of `n`.
pub fn decimal_text(n: u8) -> (r: String)
    ensures
        r@ == decimal(n as nat),
{
    let mut out = String::new();
    if n >= 100 {
        out.append(digit_text(n / 100));
    }
    if n >= 10 {
        out.append(digit_text((n / 10) % 10));
    }
    out.append(digit_text(n % 10));
    proof {
        if n >= 100 {
            assert(decimal((n / 100) as nat) == seq![digit_char((n / 100) as nat)]);
            assert(decimal((n / 10) as nat) =~= seq![digit_char((n / 100) as nat), digit_char(((n / 10) % 10) as nat)]);
        } else if n >= 10 {
            assert(decimal((n / 10) as nat) == seq![digit_char((n / 10) as nat)]);
        }
    }
    assert(out@ =~= decimal(n as nat));
    out
}

/// The decimal text of `n`.
pub fn decimal_text_u64(n: u64) -> (r: String)
    ensures
        r@ == decimal(n as nat),
    decreases n,
{
    if n < 10 {
        let mut out = String::new();
        out.append(digit_text(n as u8));
        assert(out@ =~= decimal(n as nat));
        out
    } else {
        let mut out = decimal_text_u64(n / 10);
        out.append(digit_text((n % 10) as u8));
        assert(out@ =~= decimal(n as nat));
        out
    }
}

/// The name of the structure a reference points at.
pub open spec fn ref_name(r: RefView) -> Seq<char> {
    match r {
        RefView::Raw { structure, .. } => structure.name,
        RefView::Ref { name, .. } => name,
    }
}

impl StructureReference {
    pub fn name(&self) -> (r: &String)
        ensures
            r@ == ref_name(self@),
    {
        match self {
            StructureReference::Raw { structure, .. } => &structure.structure_name,
            StructureReference::Ref { structure, .. } => structure,
        }
    }
}

/// The reference whose quoted name appears in an operator's label, if any.
pub open spec fn labelled_reference(k: KeyView) -> Option<RefView> {
    match k {
        KeyView::ProbabilitySpawn { reference, .. } => Some(reference),
        KeyView::Choose { list } => Some(list),
        KeyView::ChooseSome { list, .. } => Some(list),
        KeyView::Loop { reference, .. } => Some(reference),
        KeyView::LoopParam { reference, .. } => Some(reference),
        KeyView::Rand { reference, .. } => Some(reference),
        KeyView::NoiseSpawn { reference, .. } => Some(reference),
        KeyView::PathSpawn { reference, .. } => Some(reference),
        KeyView::PathToTag { reference, .. } => Some(reference),
        KeyView::PathToAllTags { reference, .. } => Some(reference),
        KeyView::Reflection { reference, .. } => Some(reference),
        KeyView::RandDistDir { reference, .. } => Some(reference),
        KeyView::NestingLoop { reference, .. } => Some(reference),
        KeyView::SelectiveReplacement { initial_reference, .. } => Some(initial_reference),
        KeyView::InPass { reference, .. } => Some(reference),
        _ => None,
    }
}

/// The display label of an operator, given the quoted name of its labelled
/// reference.
pub open spec fn key_label_with(k: KeyView, quoted: Seq<char>) -> Seq<char> {
    match k {
        KeyView::Object { path, .. } => path,
        KeyView::Nest(r) => ref_name(r),
        KeyView::PointLight(_) => "PointLight"@,
        KeyView::ProbabilitySpawn { .. } => "Prob "@ + quoted,
        KeyView::Choose { .. } => "Choose "@ + quoted,
        KeyView::ChooseSome { .. } => "Some "@ + quoted,
        KeyView::Loop { .. } => "Loop "@ + quoted,
        KeyView::LoopParam { .. } => "LoopParam "@ + quoted,
        KeyView::DirectionalLight(_) => "DirectionalLight"@,
        KeyView::MainDirectionalLight(_) => "MainDirectionalLight"@,
        KeyView::AmbientLight(_) => "AmbientLight"@,
        KeyView::DistanceFog(_) => "FogSettings"@,
        KeyView::AtmosphereNishita { .. } => "AtmosphereNishita"@,
        KeyView::BackgroundMusic(_) => "BackgroundMusic"@,
        KeyView::SoundEffect(_) => "SoundEffect"@,
        KeyView::SpotLight(_) => "SpotLight"@,
        KeyView::Rand { .. } => "Rand "@ + quoted,
        KeyView::NoiseSpawn { .. } => "Noise "@ + quoted,
        KeyView::PathSpawn { .. } => "Path "@ + quoted,
        KeyView::PathToTag { tag, .. } => "PathToTag "@ + tag + " -> "@ + quoted,
        KeyView::PathToAllTags { tag, .. } => "PathToAllTags "@ + tag + " -> "@ + quoted,
        KeyView::Reflection { .. } => "Reflect "@ + quoted,
        KeyView::RandDistDir { .. } => "RandDistDir "@ + quoted,
        KeyView::NestingLoop { .. } => "NLoop "@ + quoted,
        KeyView::SelectiveReplacement { .. } => "SelectiveReplacement "@ + quoted,
        KeyView::InPass { index, .. } => "Pass"@ + decimal(index as nat) + " "@ + quoted,
    }
}

/// The display label of an operator: its labelled reference's name is
/// quoted as `Debug` formatting quotes it.
pub open spec fn key_label(k: KeyView) -> Seq<char> {
    key_label_with(
        k,
        match labelled_reference(k) {
            Some(r) => debug_quoted(ref_name(r)),
            None => Seq::empty(),
        },
    )
}

fn with_prefix(prefix: &str, quoted: &str) -> (r: String)
    ensures
        r@ == prefix@ + quoted@,
{
    let mut out = String::from_str(prefix);
    out.append(quoted);
    out
}

impl StructureKey {
    /// The labelled reference of this operator (see [`labelled_reference`]).
    pub fn labelled_reference(&self) -> (r: Option<&StructureReference>)
        ensures
            match labelled_reference(self@) {
                Some(v) => r is Some && r->Some_0@ == v,
                None => r is None,
            },
    {
        match self {
            StructureKey::ProbabilitySpawn { reference, .. } => Some(reference),
            StructureKey::Choose { list } => Some(list),
            StructureKey::ChooseSome { list, .. } => Some(list),
            StructureKey::Loop { reference, .. } => Some(reference),
            StructureKey::LoopParam { reference, .. } => Some(reference),
            StructureKey::Rand { reference, .. } => Some(reference),
            StructureKey::NoiseSpawn { reference, .. } => Some(reference),
            StructureKey::PathSpawn { reference, .. } => Some(reference),
            StructureKey::PathToTag { reference, .. } => Some(reference),
            StructureKey::PathToAllTags { reference, .. } => Some(reference),
            StructureKey::Reflection { reference, .. } => Some(reference),
            StructureKey::RandDistDir { reference, .. } => Some(reference),
            StructureKey::NestingLoop { reference, .. } => Some(reference),
            StructureKey::SelectiveReplacement { initial_reference, .. } => Some(initial_reference),
            StructureKey::InPass { reference, .. } => Some(reference),
            _ => None,
        }
    }

    /// The display label of this operator, given the quoted name of its
    /// labelled reference (see [`key_label_with`]).
    pub fn label_with(&self, quoted: &str) -> (r: String)
        ensures
            r@ == key_label_with(self@, quoted@),
    {
        match self {
            StructureKey::Object { path, .. } => path.clone(),
            StructureKey::Nest(reference) => reference.name().clone(),
            StructureKey::PointLight(_) => String::from_str("PointLight"),
            StructureKey::ProbabilitySpawn { .. } => with_prefix("Prob ", quoted),
            StructureKey::Choose { .. } => with_prefix("Choose ", quoted),
            StructureKey::ChooseSome { .. } => with_prefix("Some ", quoted),
            StructureKey::Loop { .. } => with_prefix("Loop ", quoted),
            StructureKey::LoopParam { .. } => with_prefix("LoopParam ", quoted),
            StructureKey::DirectionalLight(_) => String::from_str("DirectionalLight"),
            StructureKey::MainDirectionalLight(_) => String::from_str("MainDirectionalLight"),
            StructureKey::AmbientLight(_) => String::from_str("AmbientLight"),
            StructureKey::DistanceFog(_) => String::from_str("FogSettings"),
            StructureKey::AtmosphereNishita { .. } => String::from_str("AtmosphereNishita"),
            StructureKey::BackgroundMusic(_) => String::from_str("BackgroundMusic"),
            StructureKey::SoundEffect(_) => String::from_str("SoundEffect"),
            StructureKey::SpotLight(_) => String::from_str("SpotLight"),
            StructureKey::Rand { .. } => with_prefix("Rand ", quoted),
            StructureKey::NoiseSpawn { .. } => with_prefix("Noise ", quoted),
            StructureKey::PathSpawn { .. } => with_prefix("Path ", quoted),
            StructureKey::PathToTag { tag, .. } => {
                let mut out = String::from_str("PathToTag ");
                out.append(tag.as_str());
                out.append(" -> ");
                out.append(quoted);
                out
            },
            StructureKey::PathToAllTags { tag, .. } => {
                let mut out = String::from_str("PathToAllTags ");
                out.append(tag.as_str());
                out.append(" -> ");
                out.append(quoted);
                out
            },
            StructureKey::Reflection { .. } => with_prefix("Reflect ", quoted),
            StructureKey::RandDistDir { .. } => with_prefix("RandDistDir ", quoted),
            StructureKey::NestingLoop { .. } => with_prefix("NLoop ", quoted),
            StructureKey::SelectiveReplacement { .. } => with_prefix("SelectiveReplacement ", quoted),
            StructureKey::InPass { index, .. } => {
                let mut out = String::from_str("Pass");
                out.append(decimal_text(*index).as_str());
                out.append(" ");
                out.append(quoted);
                out
            },
        }
    }

    /// The display label of this operator (see [`key_label`]).
    pub fn variant_name(&self) -> (r: String)
        ensures
            r@ == key_label(self@),
    {
        let quoted = match self.labelled_reference() {
            Some(reference) => debug_text(reference.name().as_str()),
            None => String::new(),
        };
        self.label_with(quoted.as_str())
    }
}

pub(crate) proof fn lemma_entries_view_index(d: Seq<(StructureKey, Params)>)
    ensures
        entries_view(d).len() == d.len(),
        forall|i: int| 0 <= i < d.len() ==> #[trigger] entries_view(d)[i] == (key_view(d[i].0), d[i].1),
    decreases d.len(),
{
    if d.len() > 0 {
        lemma_entries_view_index(d.subrange(0, d.len() - 1));
    }
}

/// The entries of `d` at the positions `idx`, in that order.
pub open spec fn picked(d: Seq<(KeyView, Params)>, idx: Seq<usize>) -> Seq<(KeyView, Params)> {
    Seq::new(idx.len(), |i: int| d[idx[i] as int])
}

impl Structure {
    /// The flat substructure made of the entries at `indices`, in that
    /// order, keeping the name and the tags.
    pub fn substructure_from_indices(&self, indices: &Vec<usize>) -> (r: Structure)
        requires
            forall|i: int| 0 <= i < indices@.len() ==> indices@[i] < self.data@.len(),
        ensures
            r@.name == self@.name,
            r@.tags == self@.tags,
            r@.data == picked(self@.data, indices@),
    {
        let mut data: Vec<(StructureKey, Params)> = Vec::new();
        let mut i: usize = 0;
        proof {
            lemma_entries_view_index(self.data@);
        }
        while i < indices.len()
            invariant
                i <= indices@.len(),
                forall|k: int| 0 <= k < indices@.len() ==> indices@[k] < self.data@.len(),
                entries_view(self.data@).len() == self.data@.len(),
                forall|k: int| 0 <= k < self.data@.len() ==> #[trigger] entries_view(self.data@)[k] == (key_view(self.data@[k].0), self.data@[k].1),
                entries_view(data@) == picked(self@.data, indices@.subrange(0, i as int)),
            decreases indices@.len() - i,
        {
            let j = indices[i];
            let key = self.data[j].0.duplicate();
            proof {
                lemma_entries_view_push(data@, (key, self.data@[j as int].1));
            }
            data.push((key, self.data[j].1));
            assert(entries_view(data@) =~= picked(self@.data, indices@.subrange(0, i + 1)));
            i += 1;
        }
        assert(indices@.subrange(0, indices@.len() as int) =~= indices@);
        Structure { structure_name: self.structure_name.clone(), tags: copy_tags(&self.tags), data }
    }

    /// A substructure of `n` entries drawn at random without replacement,
    /// or of every entry when `n` is at least their number.
    pub fn create_random_substructure(&self, n: &usize, rng: &mut WyRand) -> (r: Structure)
        ensures
            r@.name == self@.name,
            r@.tags == self@.tags,
            *n >= self.data@.len() ==> r@.data == self@.data,
            *n < self.data@.len() ==> r@.data.len() == *n && exists|idx: Seq<usize>|
                {
                    &&& idx.len() == *n
                    &&& idx.no_duplicates()
                    &&& forall|i: int| 0 <= i < idx.len() ==> idx[i] < self.data@.len()
                    &&& r@.data == picked(self@.data, idx)
                },
    {
        let len = self.data.len();
        if *n >= len {
            let mut all: Vec<usize> = Vec::new();
            let mut i: usize = 0;
            while i < len
                invariant
                    len == self.data@.len(),
                    i <= len,
                    all@.len() == i,
                    forall|k: int| 0 <= k < i ==> all@[k] == k,
                decreases len - i,
            {
                all.push(i);
                i += 1;
            }
            let r = self.substructure_from_indices(&all);
            proof {
                lemma_entries_view_index(self.data@);
            }
            assert(r@.data =~= self@.data);
            r
        } else {
            let idx = sample_indices(rng, len, *n);
            let r = self.substructure_from_indices(&idx);
            assert(r@.data.len() == *n);
            r
        }
    }
}

/// The tags an operator's referenced structure carries, given the
/// structures imported so far: a named structure that was not imported
/// yields the single tag `Error`; operators without a reference have none.
pub open spec fn reference_tags(r: RefView, cache: Map<Seq<char>, StructureView>) -> Seq<Seq<char>> {
    match r {
        RefView::Raw { structure, .. } => structure.tags,
        RefView::Ref { name, .. } => if cache.contains_key(name) {
            cache[name].tags
        } else {
            seq!["Error"@]
        },
    }
}

pub open spec fn key_tags(k: KeyView, cache: Map<Seq<char>, StructureView>) -> Seq<Seq<char>> {
    match k {
        KeyView::Nest(r) => reference_tags(r, cache),
        KeyView::Choose { list } => reference_tags(list, cache),
        KeyView::ChooseSome { list, .. } => reference_tags(list, cache),
        KeyView::Rand { reference, .. } => reference_tags(reference, cache),
        KeyView::ProbabilitySpawn { reference, .. } => reference_tags(reference, cache),
        KeyView::InPass { reference, .. } => reference_tags(reference, cache),
        KeyView::Loop { reference, .. } => reference_tags(reference, cache),
        KeyView::LoopParam { reference, .. } => reference_tags(reference, cache),
        KeyView::NestingLoop { reference, .. } => reference_tags(reference, cache),
        KeyView::NoiseSpawn { reference, .. } => reference_tags(reference, cache),
        KeyView::PathSpawn { reference, .. } => reference_tags(reference, cache),
        KeyView::PathToTag { reference, .. } => reference_tags(reference, cache),
        KeyView::PathToAllTags { reference, .. } => reference_tags(reference, cache),
        KeyView::Reflection { reference, .. } => reference_tags(reference, cache),
        KeyView::RandDistDir { reference, .. } => reference_tags(reference, cache),
        _ => Seq::empty(),
    }
}

impl StructureKey {
    fn extract_tags(reference: &StructureReference, cache: &StructureCache) -> (r: Vec<String>)
        ensures
            strings_view(r@) == reference_tags(reference@, cache@),
    {
        match reference {
            StructureReference::Raw { structure, .. } => copy_tags(&structure.tags),
            StructureReference::Ref { structure, .. } => match cache.get(structure) {
                Some(imported) => imported.tags,
                None => {
                    let v = vec![String::from_str("Error")];
                    assert(strings_view(v@) =~= seq!["Error"@]);
                    v
                },
            },
        }
    }

    /// The tags of the referenced structure (see [`key_tags`]), or `None`
    /// when there are none.
    pub fn get_tags(&self, cache: &StructureCache) -> (r: Option<Vec<String>>)
        ensures
            key_tags(self@, cache@).len() == 0 <==> r is None,
            r is Some ==> strings_view(r->Some_0@) == key_tags(self@, cache@),
    {
        let tags = match self {
            StructureKey::Nest(reference) => Self::extract_tags(reference, cache),
            StructureKey::Choose { list } => Self::extract_tags(list, cache),
            StructureKey::ChooseSome { list, .. } => Self::extract_tags(list, cache),
            StructureKey::Rand { reference, .. } => Self::extract_tags(reference, cache),
            StructureKey::ProbabilitySpawn { reference, .. } => Self::extract_tags(reference, cache),
            StructureKey::InPass { reference, .. } => Self::extract_tags(reference, cache),
            StructureKey::Loop { reference, .. } => Self::extract_tags(reference, cache),
            StructureKey::LoopParam { reference, .. } => Self::extract_tags(reference, cache),
            StructureKey::NestingLoop { reference, .. } => Self::extract_tags(reference, cache),
            StructureKey::NoiseSpawn { reference, .. } => Self::extract_tags(reference, cache),
            StructureKey::PathSpawn { reference, .. } => Self::extract_tags(reference, cache),
            StructureKey::PathToTag { reference, .. } => Self::extract_tags(reference, cache),
            StructureKey::PathToAllTags { reference, .. } => Self::extract_tags(reference, cache),
            StructureKey::Reflection { reference, .. } => Self::extract_tags(reference, cache),
            StructureKey::RandDistDir { reference, .. } => Self::extract_tags(reference, cache),
            _ => {
                let v: Vec<String> = Vec::new();
                assert(strings_view(v@) =~= Seq::<Seq<char>>::empty());
                v
            },
        };
        if tags.len() == 0 {
            None
        } else {
            Some(tags)
        }
    }
}

} // verus!
