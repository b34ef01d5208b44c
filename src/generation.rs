//! The generation state machine: it steps once per tick through
//! structure materialisation, collision settling, navmesh building and path
//! resolution, pass after pass, gated by stability and idleness counters.
use vstd::prelude::*;
use crate::structure::{decimal, decimal_text_u64, Params, RefView, StructureReference};

verus! {

/// Least number of ticks spent in `Generating` before it may be left.
pub const MIN_GENERATING_FRAMES: u16 = 15;
/// Consecutive ticks with no pending stabilisation work needed to leave `Generating`.
pub const REQUIRED_STABLE_FRAMES: u8 = 3;
/// Consecutive ticks without spawn output needed to leave `Generating`.
pub const REQUIRED_IDLE_FRAMES: u8 = 3;
/// Consecutive ready ticks needed before `Generating` is actually left.
pub const REQUIRED_READY_FRAMES: u8 = 8;
/// Least number of ticks spent in `CollisionResolution`.
pub const MIN_COLLISION_FRAMES: u16 = 1;
/// Safety ceiling on the ticks spent in `CollisionResolution`.
pub const MAX_COLLISION_FRAMES: u16 = 60;
/// Ticks spent in `PathResolve` so that path requests can retry.
pub const PATH_RESOLVE_FRAMES: u16 = 60;

/// The phase of generation.
#[derive(Clone, Copy, Debug, PartialEq, Eq, Hash, Structural)]
pub enum GenerationState {
    Generating,
    CollisionResolution,
    NavMeshBuilding,
    PathResolve,
    Completed,
}

impl Default for GenerationState {
    fn default() -> (r: GenerationState)
        ensures
            r == GenerationState::Generating,
    {
        GenerationState::Generating
    }
}

/// The pass being generated.
#[derive(Clone, Copy, Debug, PartialEq, Eq, Structural)]
pub struct CurrentPass(pub u8);

/// The highest pass index seen in authored data so far; the number of
/// passes is one more.
#[derive(Clone, Copy, Debug, PartialEq, Eq, Structural)]
pub struct HighestPassIndex(pub u8);

/// Ticks the no-pending-work condition has held in a row.
#[derive(Clone, Copy, Debug, PartialEq, Eq, Structural)]
pub struct SpawningStability {
    pub no_pending_stable_frames: u8,
}

/// Ticks spent in the current `Generating` phase.
#[derive(Clone, Copy, Debug, PartialEq, Eq, Structural)]
pub struct GeneratingFrameCounter {
    pub frames_in_generating: u16,
}

/// Ticks since a spawn listener last produced output.
#[derive(Clone, Copy, Debug, PartialEq, Eq, Structural)]
pub struct SpawnActivity {
    pub idle_frames: u8,
}

/// Debounce state for leaving `Generating`.
#[derive(Clone, Copy, Debug, PartialEq, Eq, Structural)]
pub struct GenerationAdvanceArming {
    pub spawn_done_frames: u8,
    pub seen_activity: bool,
    pub last_idle_frames: u8,
}

/// Ticks spent in `CollisionResolution`.
#[derive(Clone, Copy, Debug, PartialEq, Eq, Structural)]
pub struct CollisionResolutionTimer {
    pub frames: u16,
    pub quiet_frames: u16,
}

/// Ticks spent in `PathResolve`.
#[derive(Clone, Copy, Debug, PartialEq, Eq, Structural)]
pub struct PathResolveTimer {
    pub frames: u16,
}

/// What the world reports for one tick.
#[derive(Clone, Copy, Debug, PartialEq, Eq, Structural)]
pub struct TickInput {
    /// Some spawn listener produced output this tick.
    pub spawned: bool,
    /// Some generation-only-collider subtree is still stabilising.
    pub generation_only_pending: bool,
    /// Some selective replacement is still waiting for its subtree.
    pub selective_pending: bool,
    /// Deferred `InPass` work is queued for the current pass.
    pub in_pass_due: bool,
    /// The navmesh has no build in flight.
    pub navmesh_idle: bool,
    /// Path resolution has buffered at least one path-spawn result.
    pub resolved_path_spawns: bool,
}

/// The whole state of the generation pipeline.
#[derive(Clone, Copy, Debug, PartialEq, Eq, Structural)]
pub struct GenerationMachine {
    pub state: GenerationState,
    pub current_pass: CurrentPass,
    pub highest_pass: HighestPassIndex,
    pub stability: SpawningStability,
    pub generating_frames: GeneratingFrameCounter,
    pub activity: SpawnActivity,
    pub arming: GenerationAdvanceArming,
    pub collision_timer: CollisionResolutionTimer,
    pub path_timer: PathResolveTimer,
    /// Whether the pass decision of the current `Completed` phase was made.
    pub completion_checked: bool,
}

pub open spec fn inc_u8(x: u8) -> u8 {
    if x == u8::MAX { x } else { (x + 1) as u8 }
}

pub open spec fn inc_u16(x: u16) -> u16 {
    if x == u16::MAX { x } else { (x + 1) as u16 }
}

fn bump_u8(x: u8) -> (r: u8)
    ensures
        r == inc_u8(x),
{
    if x < u8::MAX { x + 1 } else { x }
}

fn bump_u16(x: u16) -> (r: u16)
    ensures
        r == inc_u16(x),
{
    if x < u16::MAX { x + 1 } else { x }
}

/// The machine entering a fresh `Generating` phase: its counters are
/// cleared and no activity has been seen yet.
pub open spec fn enter_generating(m: GenerationMachine) -> GenerationMachine {
    GenerationMachine {
        state: GenerationState::Generating,
        stability: SpawningStability { no_pending_stable_frames: 0 },
        generating_frames: GeneratingFrameCounter { frames_in_generating: 0 },
        activity: SpawnActivity { idle_frames: 0 },
        arming: GenerationAdvanceArming { spawn_done_frames: 0, seen_activity: false, last_idle_frames: 0 },
        ..m
    }
}

/// Whether `Generating` may be left, by the counters of `m`.
pub open spec fn generating_ready(m: GenerationMachine) -> bool {
    &&& m.arming.seen_activity
    &&& m.generating_frames.frames_in_generating >= MIN_GENERATING_FRAMES
    &&& m.stability.no_pending_stable_frames >= REQUIRED_STABLE_FRAMES
    &&& m.activity.idle_frames >= REQUIRED_IDLE_FRAMES
}

/// One tick of `Generating`, after the tick counters were advanced.
pub open spec fn generating_step(m: GenerationMachine, input: TickInput) -> GenerationMachine {
    let seen = m.arming.seen_activity || input.spawned;
    let m1 = GenerationMachine {
        arming: GenerationAdvanceArming { seen_activity: seen, last_idle_frames: m.activity.idle_frames, ..m.arming },
        ..m
    };
    if input.generation_only_pending || input.selective_pending || input.in_pass_due {
        GenerationMachine {
            stability: SpawningStability { no_pending_stable_frames: 0 },
            arming: GenerationAdvanceArming { spawn_done_frames: 0, ..m1.arming },
            ..m1
        }
    } else {
        let m2 = GenerationMachine {
            stability: SpawningStability { no_pending_stable_frames: inc_u8(m1.stability.no_pending_stable_frames) },
            ..m1
        };
        if generating_ready(m2) {
            let done = inc_u8(m2.arming.spawn_done_frames);
            if done >= REQUIRED_READY_FRAMES {
                GenerationMachine {
                    state: GenerationState::CollisionResolution,
                    arming: GenerationAdvanceArming { spawn_done_frames: 0, ..m2.arming },
                    ..m2
                }
            } else {
                GenerationMachine { arming: GenerationAdvanceArming { spawn_done_frames: done, ..m2.arming }, ..m2 }
            }
        } else {
            GenerationMachine { arming: GenerationAdvanceArming { spawn_done_frames: 0, ..m2.arming }, ..m2 }
        }
    }
}

/// One tick of the machine.
pub open spec fn machine_step(m: GenerationMachine, input: TickInput) -> GenerationMachine {
    let idle = if input.spawned { 0 } else { inc_u8(m.activity.idle_frames) };
    let m0 = GenerationMachine { activity: SpawnActivity { idle_frames: idle }, ..m };
    match m.state {
        GenerationState::Generating => {
            let frames = inc_u16(m.generating_frames.frames_in_generating);
            generating_step(
                GenerationMachine { generating_frames: GeneratingFrameCounter { frames_in_generating: frames }, ..m0 },
                input,
            )
        },
        GenerationState::CollisionResolution => {
            let frames = inc_u16(m.collision_timer.frames);
            if frames >= MIN_COLLISION_FRAMES || frames > MAX_COLLISION_FRAMES {
                GenerationMachine {
                    state: GenerationState::NavMeshBuilding,
                    collision_timer: CollisionResolutionTimer { frames: 0, ..m.collision_timer },
                    ..m0
                }
            } else {
                GenerationMachine { collision_timer: CollisionResolutionTimer { frames, ..m.collision_timer }, ..m0 }
            }
        },
        GenerationState::NavMeshBuilding => {
            if input.navmesh_idle {
                GenerationMachine { state: GenerationState::PathResolve, path_timer: PathResolveTimer { frames: 0 }, ..m0 }
            } else {
                m0
            }
        },
        GenerationState::PathResolve => {
            let frames = inc_u16(m.path_timer.frames);
            if frames >= PATH_RESOLVE_FRAMES {
                if input.resolved_path_spawns {
                    enter_generating(GenerationMachine { path_timer: PathResolveTimer { frames: 0 }, ..m0 })
                } else {
                    GenerationMachine {
                        state: GenerationState::Completed,
                        path_timer: PathResolveTimer { frames: 0 },
                        completion_checked: false,
                        ..m0
                    }
                }
            } else {
                GenerationMachine { path_timer: PathResolveTimer { frames }, ..m0 }
            }
        },
        GenerationState::Completed => {
            if !m.completion_checked && m.current_pass.0 < m.highest_pass.0 {
                enter_generating(
                    GenerationMachine {
                        current_pass: CurrentPass((m.current_pass.0 + 1) as u8),
                        completion_checked: true,
                        ..m0
                    },
                )
            } else {
                GenerationMachine { completion_checked: true, ..m0 }
            }
        },
    }
}

impl GenerationMachine {
    /// A machine at the start of the first pass.
    pub fn new() -> (r: GenerationMachine)
        ensures
            r == enter_generating(r),
            r.current_pass.0 == 0,
            r.highest_pass.0 == 0,
            r.collision_timer.frames == 0,
            r.collision_timer.quiet_frames == 0,
            r.path_timer.frames == 0,
            !r.completion_checked,
    {
        GenerationMachine {
            state: GenerationState::Generating,
            current_pass: CurrentPass(0),
            highest_pass: HighestPassIndex(0),
            stability: SpawningStability { no_pending_stable_frames: 0 },
            generating_frames: GeneratingFrameCounter { frames_in_generating: 0 },
            activity: SpawnActivity { idle_frames: 0 },
            arming: GenerationAdvanceArming { spawn_done_frames: 0, seen_activity: false, last_idle_frames: 0 },
            collision_timer: CollisionResolutionTimer { frames: 0, quiet_frames: 0 },
            path_timer: PathResolveTimer { frames: 0 },
            completion_checked: false,
        }
    }

    /// Clears the counters of a fresh `Generating` phase.
    pub fn reset_generating_phase(&mut self)
        ensures
            *final(self) == enter_generating(*old(self)),
    {
        self.state = GenerationState::Generating;
        self.stability.no_pending_stable_frames = 0;
        self.generating_frames.frames_in_generating = 0;
        self.activity.idle_frames = 0;
        self.arming.spawn_done_frames = 0;
        self.arming.seen_activity = false;
        self.arming.last_idle_frames = 0;
    }

    fn generating_tick(&mut self, input: TickInput)
        requires
            old(self).state == GenerationState::Generating,
        ensures
            *final(self) == generating_step(*old(self), input),
    {
        if input.spawned {
            self.arming.seen_activity = true;
        }
        self.arming.last_idle_frames = self.activity.idle_frames;
        if input.generation_only_pending || input.selective_pending || input.in_pass_due {
            self.stability.no_pending_stable_frames = 0;
            self.arming.spawn_done_frames = 0;
            return;
        }
        self.stability.no_pending_stable_frames = bump_u8(self.stability.no_pending_stable_frames);
        let ready = self.arming.seen_activity
            && self.generating_frames.frames_in_generating >= MIN_GENERATING_FRAMES
            && self.stability.no_pending_stable_frames >= REQUIRED_STABLE_FRAMES
            && self.activity.idle_frames >= REQUIRED_IDLE_FRAMES;
        if ready {
            self.arming.spawn_done_frames = bump_u8(self.arming.spawn_done_frames);
            if self.arming.spawn_done_frames >= REQUIRED_READY_FRAMES {
                self.state = GenerationState::CollisionResolution;
                self.arming.spawn_done_frames = 0;
            }
        } else {
            self.arming.spawn_done_frames = 0;
        }
    }

    /// Advances the machine by one tick (see [`machine_step`]).
    pub fn tick(&mut self, input: TickInput)
        ensures
            *final(self) == machine_step(*old(self), input),
    {
        if input.spawned {
            self.activity.idle_frames = 0;
        } else {
            self.activity.idle_frames = bump_u8(self.activity.idle_frames);
        }
        match self.state {
            GenerationState::Generating => {
                self.generating_frames.frames_in_generating = bump_u16(self.generating_frames.frames_in_generating);
                self.generating_tick(input);
            },
            GenerationState::CollisionResolution => {
                self.collision_timer.frames = bump_u16(self.collision_timer.frames);
                if self.collision_timer.frames >= MIN_COLLISION_FRAMES || self.collision_timer.frames > MAX_COLLISION_FRAMES {
                    self.state = GenerationState::NavMeshBuilding;
                    self.collision_timer.frames = 0;
                }
            },
            GenerationState::NavMeshBuilding => {
                if input.navmesh_idle {
                    self.state = GenerationState::PathResolve;
                    self.path_timer.frames = 0;
                }
            },
            GenerationState::PathResolve => {
                self.path_timer.frames = bump_u16(self.path_timer.frames);
                if self.path_timer.frames >= PATH_RESOLVE_FRAMES {
                    self.path_timer.frames = 0;
                    if input.resolved_path_spawns {
                        self.reset_generating_phase();
                    } else {
                        self.state = GenerationState::Completed;
                        self.completion_checked = false;
                    }
                }
            },
            GenerationState::Completed => {
                let advance = !self.completion_checked && self.current_pass.0 < self.highest_pass.0;
                self.completion_checked = true;
                if advance {
                    self.current_pass = CurrentPass(self.current_pass.0 + 1);
                    self.reset_generating_phase();
                }
            },
        }
    }
}

impl GenerationMachine {
    /// Records that authored data asks for pass `index`: the highest pass
    /// index becomes at least `index`.
    pub fn note_pass_index(&mut self, index: u8)
        ensures
            *final(self) == (GenerationMachine {
                highest_pass: HighestPassIndex(if index > old(self).highest_pass.0 { index } else { old(self).highest_pass.0 }),
                ..*old(self)
            }),
    {
        if index > self.highest_pass.0 {
            self.highest_pass = HighestPassIndex(index);
        }
    }
}

/// A structure deferred to a later pass, with where it goes.
pub struct InPassSpawnEvent {
    pub index: u8,
    pub reference: StructureReference,
    pub transform: Params,
    /// The bits of the parent entity, if any.
    pub parent: Option<u64>,
}

pub open spec fn event_view(e: InPassSpawnEvent) -> (u8, RefView, Params, Option<u64>) {
    (e.index, e.reference@, e.transform, e.parent)
}

pub open spec fn events_view(v: Seq<InPassSpawnEvent>) -> Seq<(u8, RefView, Params, Option<u64>)> {
    Seq::new(v.len(), |i: int| event_view(v[i]))
}

/// The persistent queue of deferred `InPass` work.
pub struct PendingInPass(pub Vec<InPassSpawnEvent>);

pub open spec fn for_pass(pass: u8) -> spec_fn((u8, RefView, Params, Option<u64>)) -> bool {
    |e: (u8, RefView, Params, Option<u64>)| e.0 == pass
}

pub open spec fn not_for_pass(pass: u8) -> spec_fn((u8, RefView, Params, Option<u64>)) -> bool {
    |e: (u8, RefView, Params, Option<u64>)| e.0 != pass
}

/// The largest index among `events`, and `floor` when there is none larger.
pub open spec fn max_index(floor: u8, events: Seq<InPassSpawnEvent>) -> u8
    decreases events.len(),
{
    if events.len() == 0 {
        floor
    } else {
        let m = max_index(floor, events.drop_last());
        if events.last().index > m { events.last().index } else { m }
    }
}

proof fn lemma_filter_push<A>(s: Seq<A>, x: A, pred: spec_fn(A) -> bool)
    ensures
        s.push(x).filter(pred) == if pred(x) { s.filter(pred).push(x) } else { s.filter(pred) },
{
    reveal(Seq::filter);
    assert(s.push(x).drop_last() =~= s);
}

/// Queues deferred `InPass` events and raises the highest pass index to
/// cover them.
pub fn in_pass_spawn_listener(events: Vec<InPassSpawnEvent>, machine: &mut GenerationMachine, pending: &mut PendingInPass)
    ensures
        *final(machine) == (GenerationMachine {
            highest_pass: HighestPassIndex(max_index(old(machine).highest_pass.0, events@)),
            ..*old(machine)
        }),
        events_view(final(pending).0@) == events_view(old(pending).0@) + events_view(events@),
{
    let ghost all = events@;
    let ghost start = *machine;
    let mut rest = events;
    let n = rest.len();
    let mut i: usize = 0;
    while i < n
        invariant
            n == all.len(),
            i <= n,
            rest@ == all.subrange(i as int, n as int),
            *machine == (GenerationMachine {
                highest_pass: HighestPassIndex(max_index(start.highest_pass.0, all.subrange(0, i as int))),
                ..start
            }),
            events_view(pending.0@) == events_view(old(pending).0@) + events_view(all.subrange(0, i as int)),
        decreases n - i,
    {
        let ev = rest.remove(0);
        assert(all.subrange(0, i + 1).drop_last() =~= all.subrange(0, i as int));
        machine.note_pass_index(ev.index);
        let ghost before = pending.0@;
        pending.0.push(ev);
        assert(events_view(pending.0@) =~= events_view(before).push(event_view(ev)));
        assert(events_view(all.subrange(0, i + 1)) =~= events_view(all.subrange(0, i as int)).push(event_view(ev)));
        assert(rest@ =~= all.subrange(i + 1, n as int));
        i += 1;
    }
    assert(all.subrange(0, n as int) =~= all);
}

/// Takes out of the queue the events of pass `current`, in queue order,
/// leaving the others queued in order.
pub fn process_pending_inpass(pending: &mut PendingInPass, current: CurrentPass) -> (due: Vec<InPassSpawnEvent>)
    ensures
        events_view(due@) == events_view(old(pending).0@).filter(for_pass(current.0)),
        events_view(final(pending).0@) == events_view(old(pending).0@).filter(not_for_pass(current.0)),
{
    let mut queue: Vec<InPassSpawnEvent> = Vec::new();
    std::mem::swap(&mut pending.0, &mut queue);
    let ghost all = queue@;
    let n = queue.len();
    let mut due: Vec<InPassSpawnEvent> = Vec::new();
    let mut i: usize = 0;
    while i < n
        invariant
            n == all.len(),
            i <= n,
            all == old(pending).0@,
            queue@ == all.subrange(i as int, n as int),
            events_view(due@) == events_view(all.subrange(0, i as int)).filter(for_pass(current.0)),
            events_view(pending.0@) == events_view(all.subrange(0, i as int)).filter(not_for_pass(current.0)),
        decreases n - i,
    {
        let ev = queue.remove(0);
        let ghost e = event_view(ev);
        assert(events_view(all.subrange(0, i + 1)) =~= events_view(all.subrange(0, i as int)).push(e));
        proof {
            lemma_filter_push(events_view(all.subrange(0, i as int)), e, for_pass(current.0));
            lemma_filter_push(events_view(all.subrange(0, i as int)), e, not_for_pass(current.0));
        }
        if ev.index == current.0 {
            let ghost before = due@;
            due.push(ev);
            assert(events_view(due@) =~= events_view(before).push(e));
        } else {
            let ghost before = pending.0@;
            pending.0.push(ev);
            assert(events_view(pending.0@) =~= events_view(before).push(e));
        }
        assert(queue@ =~= all.subrange(i + 1, n as int));
        i += 1;
    }
    assert(all.subrange(0, n as int) =~= all);
    due
}

/// Whether any queued event belongs to pass `current`.
pub fn any_due(pending: &PendingInPass, current: CurrentPass) -> (r: bool)
    ensures
        r == exists|i: int| 0 <= i < pending.0@.len() && pending.0@[i].index == current.0,
{
    let mut i: usize = 0;
    while i < pending.0.len()
        invariant
            i <= pending.0@.len(),
            forall|k: int| 0 <= k < i ==> pending.0@[k].index != current.0,
        decreases pending.0@.len() - i,
    {
        if pending.0[i].index == current.0 {
            return true;
        }
        i += 1;
    }
    false
}

/// While a generation-only-collider subtree or a selective replacement is
/// still pending, a tick of `Generating` never leaves `Generating`.
pub proof fn lemma_pending_work_holds_generating(m: GenerationMachine, input: TickInput)
    requires
        m.state == GenerationState::Generating,
        input.generation_only_pending || input.selective_pending,
    ensures
        machine_step(m, input).state == GenerationState::Generating,
{
}

/// When `PathResolve` is left, it is left for `Generating` exactly when a
/// path-spawn result was buffered, and for `Completed` otherwise.
pub proof fn lemma_path_resolve_exit(m: GenerationMachine, input: TickInput)
    requires
        m.state == GenerationState::PathResolve,
        machine_step(m, input).state != GenerationState::PathResolve,
    ensures
        machine_step(m, input).state == GenerationState::Generating <==> input.resolved_path_spawns,
        !input.resolved_path_spawns ==> machine_step(m, input).state == GenerationState::Completed,
{
}

/// Once the pass decision of a `Completed` phase was made, the machine
/// stays `Completed` whatever the world reports.
pub proof fn lemma_completed_is_final(m: GenerationMachine, input: TickInput)
    requires
        m.state == GenerationState::Completed,
        m.completion_checked,
    ensures
        machine_step(m, input).state == GenerationState::Completed,
        machine_step(m, input).completion_checked,
        machine_step(m, input).current_pass == m.current_pass,
{
}

/// Leaving `Completed` for another pass happens only while a higher pass
/// index was seen, and moves to the next pass.
pub proof fn lemma_next_pass(m: GenerationMachine, input: TickInput)
    requires
        m.state == GenerationState::Completed,
        machine_step(m, input).state == GenerationState::Generating,
    ensures
        m.current_pass.0 < m.highest_pass.0,
        machine_step(m, input).current_pass.0 == m.current_pass.0 + 1,
{
}

/// The name of a generation state.
pub open spec fn state_name(s: GenerationState) -> Seq<char> {
    match s {
        GenerationState::Generating => "Generating"@,
        GenerationState::CollisionResolution => "CollisionResolution"@,
        GenerationState::NavMeshBuilding => "NavMeshBuilding"@,
        GenerationState::PathResolve => "PathResolve"@,
        GenerationState::Completed => "Completed"@,
    }
}

/// The status overlay: the state, the navmesh builds in flight, and the
/// pass counted from one out of the passes known so far.
pub open spec fn overlay_text(s: GenerationState, tasks: u64, current: u8, highest: u8) -> Seq<char> {
    "GenerationState: "@ + state_name(s) + "\nActiveNavMeshTasks: "@ + decimal(tasks as nat) + "\nPass: "@ + decimal(
        current as nat + 1,
    ) + "/"@ + decimal(highest as nat + 1)
}

/// Writes the status overlay (see [`overlay_text`]).
pub fn generation_overlay_text(s: GenerationState, tasks: u64, current: u8, highest: u8) -> (r: String)
    ensures
        r@ == overlay_text(s, tasks, current, highest),
{
    let mut out = String::from_str("GenerationState: ");
    let name = match s {
        GenerationState::Generating => "Generating",
        GenerationState::CollisionResolution => "CollisionResolution",
        GenerationState::NavMeshBuilding => "NavMeshBuilding",
        GenerationState::PathResolve => "PathResolve",
        GenerationState::Completed => "Completed",
    };
    out.append(name);
    out.append("\nActiveNavMeshTasks: ");
    out.append(decimal_text_u64(tasks).as_str());
    out.append("\nPass: ");
    out.append(decimal_text_u64(current as u64 + 1).as_str());
    out.append("/");
    out.append(decimal_text_u64(highest as u64 + 1).as_str());
    out
}

} // verus!
