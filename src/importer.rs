//! Bookkeeping for importing structures by name: the name cache, the chain
//! of structures currently being expanded, and the relative file path a
//! name maps to.
use vstd::prelude::*;
use crate::structure::{strings_view, ErrorView, Structure, StructureError, StructureView};

verus! {

/// The deepest chain of nested named structures that may be expanded.
pub const MAX_DEPTH: usize = 100;

/// Name to structure cache: populated lazily, read many times.
pub struct StructureCache {
    entries: Vec<(String, Structure)>,
}

/// What `entries` holds under `name`: the latest entry stored under it.
pub open spec fn cached_under(entries: Seq<(String, Structure)>, name: Seq<char>) -> Option<StructureView>
    decreases entries.len(),
{
    if entries.len() == 0 {
        None
    } else if entries.last().0@ == name {
        Some(entries.last().1@)
    } else {
        cached_under(entries.drop_last(), name)
    }
}

impl View for StructureCache {
    type V = Map<Seq<char>, StructureView>;

    closed spec fn view(&self) -> Map<Seq<char>, StructureView> {
        Map::new(
            |k: Seq<char>| cached_under(self.entries@, k) is Some,
            |k: Seq<char>| cached_under(self.entries@, k)->Some_0,
        )
    }
}

impl StructureCache {
    pub fn new() -> (r: StructureCache)
        ensures
            r@ == Map::<Seq<char>, StructureView>::empty(),
    {
        let r = StructureCache { entries: Vec::new() };
        assert(r@ =~= Map::<Seq<char>, StructureView>::empty());
        r
    }

    /// Forgets every cached structure.
    pub fn clear(&mut self)
        ensures
            final(self)@ == Map::<Seq<char>, StructureView>::empty(),
    {
        self.entries.clear();
        assert(self@ =~= Map::<Seq<char>, StructureView>::empty());
    }

    /// Stores `structure` under `name`, replacing what was stored there.
    pub fn insert(&mut self, name: String, structure: Structure)
        ensures
            final(self)@ == old(self)@.insert(name@, structure@),
    {
        let ghost before = self.entries@;
        self.entries.push((name, structure));
        assert(self.entries@.drop_last() =~= before);
        assert(self@ =~= old(self)@.insert(name@, structure@));
    }

    pub fn contains(&self, name: &String) -> (r: bool)
        ensures
            r == self@.contains_key(name@),
    {
        let mut i = self.entries.len();
        assert(self.entries@.subrange(0, i as int) =~= self.entries@);
        while i > 0
            invariant
                i <= self.entries@.len(),
                cached_under(self.entries@, name@) == cached_under(self.entries@.subrange(0, i as int), name@),
            decreases i,
        {
            let ghost pre = self.entries@.subrange(0, i as int);
            assert(pre.drop_last() =~= self.entries@.subrange(0, i - 1));
            if self.entries[i - 1].0 == *name {
                return true;
            }
            i -= 1;
        }
        false
    }

    /// A copy of the structure stored under `name`, if any.
    pub fn get(&self, name: &String) -> (r: Option<Structure>)
        ensures
            self@.contains_key(name@) <==> r is Some,
            r is Some ==> r->Some_0@ == self@[name@],
    {
        let mut i = self.entries.len();
        assert(self.entries@.subrange(0, i as int) =~= self.entries@);
        while i > 0
            invariant
                i <= self.entries@.len(),
                cached_under(self.entries@, name@) == cached_under(self.entries@.subrange(0, i as int), name@),
            decreases i,
        {
            let ghost pre = self.entries@.subrange(0, i as int);
            assert(pre.drop_last() =~= self.entries@.subrange(0, i - 1));
            if self.entries[i - 1].0 == *name {
                return Some(self.entries[i - 1].1.duplicate());
            }
            i -= 1;
        }
        None
    }
}

/// What entering the named structure does to the chain of structures being
/// expanded: a name already on the chain is a cycle, a full chain is too
/// deep, otherwise the name is pushed.
pub open spec fn enter_outcome(stack: Seq<Seq<char>>, name: Seq<char>) -> Result<Seq<Seq<char>>, ErrorView> {
    if stack.contains(name) {
        Err(ErrorView::CycleDetected(name))
    } else if stack.len() >= MAX_DEPTH {
        Err(ErrorView::MaxDepthExceeded(name))
    } else {
        Ok(stack.push(name))
    }
}

/// Entering each name of `chain` in turn, each nested in the one before,
/// starting from `stack`; the first refusal ends the descent.
pub open spec fn descend(stack: Seq<Seq<char>>, chain: Seq<Seq<char>>) -> Result<Seq<Seq<char>>, ErrorView>
    decreases chain.len(),
{
    if chain.len() == 0 {
        Ok(stack)
    } else {
        match enter_outcome(stack, chain[0]) {
            Ok(next) => descend(next, chain.drop_first()),
            Err(e) => Err(e),
        }
    }
}

/// Pushes `name` on the chain of structures being expanded, or refuses it
/// (see [`enter_outcome`]); a refusal leaves the chain as it was.
pub fn enter_structure(struct_stack: &mut Vec<String>, name: &String) -> (r: Result<(), StructureError>)
    ensures
        match enter_outcome(strings_view(old(struct_stack)@), name@) {
            Ok(next) => r is Ok && strings_view(final(struct_stack)@) == next,
            Err(e) => r is Err && r->Err_0@ == e && final(struct_stack)@ == old(struct_stack)@,
        },
{
    let ghost names = strings_view(struct_stack@);
    let mut i: usize = 0;
    while i < struct_stack.len()
        invariant
            i <= struct_stack@.len(),
            names == strings_view(struct_stack@),
            forall|k: int| 0 <= k < i ==> struct_stack@[k]@ != name@,
        decreases struct_stack@.len() - i,
    {
        if struct_stack[i] == *name {
            assert(names[i as int] == name@);
            return Err(StructureError::CycleDetected(name.clone()));
        }
        i += 1;
    }
    assert(!names.contains(name@));
    if struct_stack.len() >= MAX_DEPTH {
        return Err(StructureError::MaxDepthExceeded(name.clone()));
    }
    struct_stack.push(name.clone());
    assert(strings_view(struct_stack@) =~= names.push(name@));
    Ok(())
}

/// Pops the innermost structure off the chain once its expansion is done.
pub fn leave_structure(struct_stack: &mut Vec<String>)
    ensures
        final(struct_stack)@ == if old(struct_stack)@.len() == 0 {
            old(struct_stack)@
        } else {
            old(struct_stack)@.drop_last()
        },
{
    if struct_stack.len() > 0 {
        struct_stack.pop();
    }
}

/// A chain of nested names that comes back to a name already on it is
/// refused as a cycle at that name, when the chain is not too deep before.
pub proof fn lemma_cycle_detected(stack: Seq<Seq<char>>, chain: Seq<Seq<char>>)
    requires
        chain.len() >= 1,
        stack.len() + chain.len() <= MAX_DEPTH + 1,
        (stack + chain.drop_last()).no_duplicates(),
        (stack + chain.drop_last()).contains(chain.last()),
    ensures
        descend(stack, chain) == Err::<Seq<Seq<char>>, ErrorView>(ErrorView::CycleDetected(chain.last())),
    decreases chain.len(),
{
    if chain.len() == 1 {
        assert(chain.drop_last() =~= Seq::<Seq<char>>::empty());
        assert(stack + chain.drop_last() =~= stack);
    } else {
        let c = chain[0];
        let all = stack + chain.drop_last();
        assert(all[stack.len() as int] == c);
        if stack.contains(c) {
            let k = choose|k: int| 0 <= k < stack.len() && stack[k] == c;
            assert(all[k] == all[stack.len() as int]);
        }
        let next = stack.push(c);
        let rest = chain.drop_first();
        assert(next + rest.drop_last() =~= all);
        assert(rest.last() == chain.last());
        lemma_cycle_detected(next, rest);
    }
}

/// A descent that is not refused never holds more than `MAX_DEPTH` names,
/// so expansion by name never nests without bound.
pub proof fn lemma_descent_bounded(stack: Seq<Seq<char>>, chain: Seq<Seq<char>>)
    requires
        stack.len() <= MAX_DEPTH,
        descend(stack, chain) is Ok,
    ensures
        descend(stack, chain)->Ok_0.len() <= MAX_DEPTH,
    decreases chain.len(),
{
    if chain.len() > 0 {
        lemma_descent_bounded(stack.push(chain[0]), chain.drop_first());
    }
}

pub open spec fn is_separator(c: char) -> bool {
    c == '/' || c == '\\'
}

/// Reading `s` left to right: the finished non-empty segments, and the
/// segment still being read.
pub open spec fn split_scan(s: Seq<char>) -> (Seq<Seq<char>>, Seq<char>)
    decreases s.len(),
{
    if s.len() == 0 {
        (Seq::empty(), Seq::empty())
    } else {
        let (done, cur) = split_scan(s.drop_last());
        if is_separator(s.last()) {
            (if cur.len() > 0 { done.push(cur) } else { done }, Seq::empty())
        } else {
            (done, cur.push(s.last()))
        }
    }
}

/// The non-empty pieces of `s` between separators, in order.
pub open spec fn path_segments(s: Seq<char>) -> Seq<Seq<char>> {
    let (done, cur) = split_scan(s);
    if cur.len() > 0 {
        done.push(cur)
    } else {
        done
    }
}

/// Segments joined by `/`.
pub open spec fn join_segments(segs: Seq<Seq<char>>) -> Seq<char>
    decreases segs.len(),
{
    if segs.len() == 0 {
        Seq::empty()
    } else if segs.len() == 1 {
        segs[0]
    } else {
        join_segments(segs.drop_last()) + seq!['/'] + segs.last()
    }
}

/// The file extension of structure files.
pub open spec fn structure_extension() -> Seq<char> {
    seq!['.', 'a', 'r', 'c', 'h']
}

/// The relative path of a structure file: the segments of the name joined
/// by `/`, with the structure extension appended; empty when the name has no
/// segment.
pub open spec fn structure_relpath(name: Seq<char>) -> Seq<char> {
    let segs = path_segments(name);
    if segs.len() == 0 {
        Seq::empty()
    } else {
        join_segments(segs) + structure_extension()
    }
}

proof fn lemma_join_push(segs: Seq<Seq<char>>, x: Seq<char>)
    ensures
        join_segments(segs.push(x)) == if segs.len() == 0 {
            x
        } else {
            join_segments(segs) + seq!['/'] + x
        },
{
    assert(segs.push(x).drop_last() =~= segs);
    if segs.len() == 0 {
        assert(segs.push(x)[0] == x);
    }
}

/// Appends a finished segment to `out`, with a `/` before it unless it is
/// the first.
fn push_segment(out: &mut String, count: usize, seg: &str, ghost_done: Ghost<Seq<Seq<char>>>)
    requires
        old(out)@ == join_segments(ghost_done@),
        count == ghost_done@.len(),
    ensures
        final(out)@ == join_segments(ghost_done@.push(seg@)),
{
    proof {
        lemma_join_push(ghost_done@, seg@);
    }
    if count > 0 {
        out.append("/");
        proof {
            reveal_strlit("/");
        }
    }
    out.append(seg);
}

/// The relative file path of the named structure (see [`structure_relpath`]).
pub fn normalized_structure_relpath(structure_name: &str) -> (r: String)
    ensures
        r@ == structure_relpath(structure_name@),
{
    let n = structure_name.unicode_len();
    let mut out = String::new();
    let mut count: usize = 0;
    let mut seg_start: usize = 0;
    let mut i: usize = 0;
    let ghost mut done: Seq<Seq<char>> = Seq::empty();
    while i < n
        invariant
            n == structure_name@.len(),
            seg_start <= i <= n,
            split_scan(structure_name@.subrange(0, i as int)) == (done, structure_name@.subrange(seg_start as int, i as int)),
            out@ == join_segments(done),
            count == done.len(),
            count <= seg_start,
        decreases n - i,
    {
        let c = structure_name.get_char(i);
        let ghost prefix = structure_name@.subrange(0, i + 1);
        assert(prefix.drop_last() =~= structure_name@.subrange(0, i as int));
        assert(prefix.last() == c);
        if c == '/' || c == '\\' {
            if i > seg_start {
                let seg = structure_name.substring_char(seg_start, i);
                push_segment(&mut out, count, seg, Ghost(done));
                proof {
                    done = done.push(seg@);
                }
                count += 1;
            }
            seg_start = i + 1;
        } else {
            assert(structure_name@.subrange(seg_start as int, i + 1) =~= structure_name@.subrange(
                seg_start as int,
                i as int,
            ).push(c));
        }
        i += 1;
    }
    assert(structure_name@.subrange(0, n as int) =~= structure_name@);
    if n > seg_start {
        let seg = structure_name.substring_char(seg_start, n);
        push_segment(&mut out, count, seg, Ghost(done));
        proof {
            done = done.push(seg@);
        }
        count += 1;
    }
    if count > 0 {
        out.append(".arch");
        proof {
            reveal_strlit(".arch");
            assert(".arch"@ =~= structure_extension());
        }
    }
    out
}

/// The directories searched for structure files, in order of preference.
pub open spec fn structure_roots() -> Seq<Seq<char>> {
    seq!["assets/structures"@, "tests/assets/structures"@, "tests/imported_assets/Default/structures"@]
}

/// The candidate files of the named structure, relative to the working
/// directory: its relative path under each root, in the order of the roots.
pub fn candidate_paths(structure_name: &str) -> (r: Vec<String>)
    ensures
        r@.len() == structure_roots().len(),
        forall|i: int| 0 <= i < r@.len() ==> (#[trigger] r@[i])@ == structure_roots()[i] + seq!['/'] + structure_relpath(
            structure_name@,
        ),
{
    let rel = normalized_structure_relpath(structure_name);
    let roots = ["assets/structures", "tests/assets/structures", "tests/imported_assets/Default/structures"];
    let mut out: Vec<String> = Vec::new();
    let mut i: usize = 0;
    proof {
        reveal_strlit("/");
    }
    while i < 3
        invariant
            i <= 3,
            rel@ == structure_relpath(structure_name@),
            roots@ == seq!["assets/structures", "tests/assets/structures", "tests/imported_assets/Default/structures"],
            "/"@ == seq!['/'],
            out@.len() == i,
            forall|k: int| 0 <= k < i ==> (#[trigger] out@[k])@ == structure_roots()[k] + seq!['/'] + structure_relpath(
                structure_name@,
            ),
        decreases 3 - i,
    {
        let mut path = String::from_str(roots[i]);
        path.append("/");
        path.append(rel.as_str());
        out.push(path);
        i += 1;
    }
    out
}

/// A descent whose chain comes back to a name already entered (or already
/// on the starting stack) is refused before it completes, whatever its
/// length: by the cycle check, or by the depth limit first.
pub proof fn lemma_repeated_name_refused(stack: Seq<Seq<char>>, chain: Seq<Seq<char>>, j: int)
    requires
        0 <= j < chain.len(),
        (stack + chain.take(j)).contains(chain[j]),
    ensures
        descend(stack, chain) is Err,
    decreases chain.len(),
{
    let c = chain[0];
    if stack.contains(c) || stack.len() >= MAX_DEPTH {
    } else {
        if j == 0 {
            assert(stack + chain.take(0) =~= stack);
        } else {
            let next = stack.push(c);
            let rest = chain.drop_first();
            assert(next + rest.take(j - 1) =~= stack + chain.take(j));
            assert(rest[j - 1] == chain[j]);
            lemma_repeated_name_refused(next, rest, j - 1);
        }
    }
}

} // verus!
