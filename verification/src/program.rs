//! The protocol that turns shader sources into a linked GPU program.
//!
//! Building a program alternates work on the GPU driver (compiling a stage,
//! linking) with decisions (go on, or stop with an error that names what
//! failed). The decisions live here as a state machine: the caller performs
//! the pending action, reports the outcome as an event, and gets the next
//! action back.
use vstd::prelude::*;

verus! {

/// A programmable stage of the pipeline.
#[derive(PartialEq, Eq, Structural, Debug, Clone, Copy)]
pub enum ShaderStage {
    Vertex,
    Fragment,
    Compute,
}

/// The two kinds of programs the viewer builds: a rasterising program made
/// of a vertex and a fragment stage, and a compute program of one stage.
#[derive(PartialEq, Eq, Structural, Debug, Clone, Copy)]
pub enum ProgramKind {
    Geometry,
    Compute,
}

/// The stages of a program of the given kind, in the order they are compiled.
pub open spec fn stages_of(kind: ProgramKind) -> Seq<ShaderStage> {
    match kind {
        ProgramKind::Geometry => seq![ShaderStage::Vertex, ShaderStage::Fragment],
        ProgramKind::Compute => seq![ShaderStage::Compute],
    }
}

/// What stopped a build.
#[derive(PartialEq, Eq, Structural, Debug, Clone, Copy)]
pub enum BuildError {
    /// The driver refused to compile this stage.
    Compile(ShaderStage),
    /// The driver refused to link the program.
    Link(ProgramKind),
}

/// The text that opens the report of a build error; the driver's log follows it.
pub open spec fn error_prefix(error: BuildError) -> Seq<char> {
    match error {
        BuildError::Compile(ShaderStage::Vertex) => "Vertex shader compile error: "@,
        BuildError::Compile(ShaderStage::Fragment) => "Fragment shader compile error: "@,
        BuildError::Compile(ShaderStage::Compute) => "Compute shader compile error: "@,
        BuildError::Link(ProgramKind::Geometry) => "Geometry program link error: "@,
        BuildError::Link(ProgramKind::Compute) => "Compute program link error: "@,
    }
}

impl BuildError {
    /// The text that opens the report of this error.
    pub fn prefix(&self) -> (text: &'static str)
        ensures
            text@ == error_prefix(*self),
    {
        match self {
            BuildError::Compile(ShaderStage::Vertex) => "Vertex shader compile error: ",
            BuildError::Compile(ShaderStage::Fragment) => "Fragment shader compile error: ",
            BuildError::Compile(ShaderStage::Compute) => "Compute shader compile error: ",
            BuildError::Link(ProgramKind::Geometry) => "Geometry program link error: ",
            BuildError::Link(ProgramKind::Compute) => "Compute program link error: ",
        }
    }
}

/// Where a build stands.
#[derive(PartialEq, Eq, Structural, Debug, Clone, Copy)]
pub enum BuildPhase {
    /// Compiling the stages, one after the other.
    Compiling,
    /// All stages compiled; the program waits to be linked.
    Linking,
    /// The program with this name linked.
    Finished(u32),
    /// The build stopped.
    Failed(BuildError),
}

/// The work the caller is asked to do next.
#[derive(PartialEq, Eq, Structural, Debug, Clone, Copy)]
pub enum BuildAction {
    /// Create a shader object for this stage, hand it its source, compile it,
    /// and report the outcome.
    Compile(ShaderStage),
    /// Create a program object, attach every compiled shader, link, and
    /// report the outcome.
    Link,
    /// Delete the compiled shader objects; the program with this name is ready.
    Finish(u32),
    /// Report the error together with the driver's log, and give up.
    Fail(BuildError),
}

/// The outcome of an action, as reported by the caller.
#[derive(PartialEq, Eq, Structural, Debug, Clone, Copy)]
pub enum BuildEvent {
    /// A stage was compiled into the shader object `shader`; `success` is the
    /// driver's compile status.
    Compiled { shader: u32, success: bool },
    /// The program object `program` was linked; `success` is the driver's link status.
    Linked { program: u32, success: bool },
}

/// The abstract state of a build.
pub struct BuildState {
    pub kind: ProgramKind,
    /// The shader objects compiled so far, one per stage, in stage order.
    pub compiled: Seq<u32>,
    pub phase: BuildPhase,
}

/// The state of a build that has not started.
pub open spec fn initial_state(kind: ProgramKind) -> BuildState {
    BuildState { kind, compiled: Seq::empty(), phase: BuildPhase::Compiling }
}

/// The states a build can be in.
pub open spec fn state_wf(s: BuildState) -> bool {
    let n = stages_of(s.kind).len();
    match s.phase {
        BuildPhase::Compiling => s.compiled.len() < n,
        BuildPhase::Linking => s.compiled.len() == n,
        BuildPhase::Finished(_) => s.compiled.len() == n,
        BuildPhase::Failed(BuildError::Compile(stage)) => {
            &&& s.compiled.len() < n
            &&& stage == stages_of(s.kind)[s.compiled.len() as int]
        },
        BuildPhase::Failed(BuildError::Link(kind)) => {
            &&& s.compiled.len() == n
            &&& kind == s.kind
        },
    }
}

/// The action a build in state `s` waits for.
pub open spec fn pending_action(s: BuildState) -> BuildAction {
    match s.phase {
        BuildPhase::Compiling => BuildAction::Compile(stages_of(s.kind)[s.compiled.len() as int]),
        BuildPhase::Linking => BuildAction::Link,
        BuildPhase::Finished(program) => BuildAction::Finish(program),
        BuildPhase::Failed(error) => BuildAction::Fail(error),
    }
}

/// The state after the outcome `e` is reported in state `s`. An outcome that
/// does not answer the pending action leaves the state as it is.
pub open spec fn next_state(s: BuildState, e: BuildEvent) -> BuildState {
    match (s.phase, e) {
        (BuildPhase::Compiling, BuildEvent::Compiled { shader, success }) => {
            if success {
                let compiled = s.compiled.push(shader);
                BuildState {
                    kind: s.kind,
                    compiled,
                    phase: if compiled.len() == stages_of(s.kind).len() {
                        BuildPhase::Linking
                    } else {
                        BuildPhase::Compiling
                    },
                }
            } else {
                BuildState {
                    phase: BuildPhase::Failed(
                        BuildError::Compile(stages_of(s.kind)[s.compiled.len() as int]),
                    ),
                    ..s
                }
            }
        },
        (BuildPhase::Linking, BuildEvent::Linked { program, success }) => {
            if success {
                BuildState { phase: BuildPhase::Finished(program), ..s }
            } else {
                BuildState { phase: BuildPhase::Failed(BuildError::Link(s.kind)), ..s }
            }
        },
        _ => s,
    }
}

/// The state after the outcomes `events` are reported one after the other.
pub open spec fn run(s: BuildState, events: Seq<BuildEvent>) -> BuildState
    decreases events.len(),
{
    if events.len() == 0 {
        s
    } else {
        run(next_state(s, events[0]), events.drop_first())
    }
}

/// The outcomes of compiling each of `shaders` successfully, in order.
pub open spec fn compile_successes(shaders: Seq<u32>) -> Seq<BuildEvent> {
    shaders.map_values(|shader: u32| BuildEvent::Compiled { shader, success: true })
}

/// When every stage compiles and the program links, the builder asks to
/// compile the stages in order, then to link, then finishes with the linked
/// program, holding the compiled shader objects in stage order.
pub proof fn lemma_successful_build(kind: ProgramKind, shaders: Seq<u32>, program: u32)
    requires
        shaders.len() == stages_of(kind).len(),
    ensures
        forall|k: int|
            0 <= k < shaders.len() ==> #[trigger] pending_action(
                run(initial_state(kind), compile_successes(shaders).take(k)),
            ) == BuildAction::Compile(stages_of(kind)[k]),
        run(initial_state(kind), compile_successes(shaders)) == (BuildState {
            kind,
            compiled: shaders,
            phase: BuildPhase::Linking,
        }),
        run(
            initial_state(kind),
            compile_successes(shaders).push(BuildEvent::Linked { program, success: true }),
        ) == (BuildState { kind, compiled: shaders, phase: BuildPhase::Finished(program) }),
{
    reveal_with_fuel(run, 4);
    let s0 = initial_state(kind);
    let ev = compile_successes(shaders);
    let link = BuildEvent::Linked { program, success: true };
    assert(ev.take(0) =~= Seq::<BuildEvent>::empty());
    match kind {
        ProgramKind::Compute => {
            let s1 = next_state(s0, ev[0]);
            assert(s1.compiled =~= shaders);
            assert(ev.drop_first() =~= Seq::<BuildEvent>::empty());
            assert(ev.push(link).drop_first() =~= seq![link]);
            assert(seq![link].drop_first() =~= Seq::<BuildEvent>::empty());
        },
        ProgramKind::Geometry => {
            let s1 = next_state(s0, ev[0]);
            let s2 = next_state(s1, ev[1]);
            assert(s1.compiled =~= seq![shaders[0]]);
            assert(s2.compiled =~= shaders);
            assert(ev.take(1) =~= seq![ev[0]]);
            assert(seq![ev[0]].drop_first() =~= Seq::<BuildEvent>::empty());
            assert(ev.drop_first() =~= seq![ev[1]]);
            assert(seq![ev[1]].drop_first() =~= Seq::<BuildEvent>::empty());
            assert(ev.push(link).drop_first() =~= seq![ev[1], link]);
            assert(seq![ev[1], link].drop_first() =~= seq![link]);
            assert(seq![link].drop_first() =~= Seq::<BuildEvent>::empty());
        },
    }
}

/// A build that finished or failed stays as it is, whatever is reported next.
pub proof fn lemma_stopped_build_stays(s: BuildState, e: BuildEvent)
    requires
        s.phase is Finished || s.phase is Failed,
    ensures
        next_state(s, e) == s,
{
}

/// Reporting outcomes keeps a build among the states a build can be in.
pub proof fn lemma_run_stays_wf(s: BuildState, events: Seq<BuildEvent>)
    requires
        state_wf(s),
    ensures
        state_wf(run(s, events)),
    decreases events.len(),
{
    if events.len() > 0 {
        lemma_run_stays_wf(next_state(s, events[0]), events.drop_first());
    }
}

/// The builder asks to link only once every stage has compiled, and asks to
/// finish only with the program the driver reported as linked.
pub proof fn lemma_link_needs_all_stages(s: BuildState, e: BuildEvent)
    requires
        state_wf(s),
    ensures
        pending_action(s) == BuildAction::Link ==> s.compiled.len() == stages_of(s.kind).len(),
        pending_action(next_state(s, e)) is Finish && !(s.phase is Finished) ==> {
            &&& s.phase == BuildPhase::Linking
            &&& e matches BuildEvent::Linked { program, success }
            &&& success
            &&& pending_action(next_state(s, e)) == BuildAction::Finish(program)
        },
{
}

/// The stages of each kind of program, in compile order: a compute program
/// has the compute stage alone, a rasterising program the vertex stage and
/// then the fragment stage.
pub proof fn lemma_stage_order()
    ensures
        stages_of(ProgramKind::Compute).len() == 1,
        stages_of(ProgramKind::Compute)[0] == ShaderStage::Compute,
        stages_of(ProgramKind::Geometry).len() == 2,
        stages_of(ProgramKind::Geometry)[0] == ShaderStage::Vertex,
        stages_of(ProgramKind::Geometry)[1] == ShaderStage::Fragment,
{
}

/// A compile that the driver reports as failed stops the build, for every
/// kind of program and at every stage: the build fails with the error that
/// names the stage being compiled, keeps the shaders compiled before it, and
/// from then on asks only to report that error.
pub proof fn lemma_failed_compile_stops(s: BuildState, shader: u32)
    requires
        state_wf(s),
        s.phase == BuildPhase::Compiling,
    ensures
        ({
            let t = next_state(s, BuildEvent::Compiled { shader, success: false });
            let failed = BuildError::Compile(stages_of(s.kind)[s.compiled.len() as int]);
            &&& t.kind == s.kind
            &&& t.compiled == s.compiled
            &&& t.phase == BuildPhase::Failed(failed)
            &&& pending_action(t) == BuildAction::Fail(failed)
            &&& forall|e: BuildEvent| #[trigger] next_state(t, e) == t
        }),
{
}

/// The first failed compile of each kind of program names its first stage:
/// the compute stage for a compute program, the vertex stage for a
/// rasterising one; a failed compile after the vertex stage compiled names the
/// fragment stage.
pub proof fn lemma_failed_compile_names_stage(shader: u32, first: u32)
    ensures
        pending_action(
            next_state(
                initial_state(ProgramKind::Compute),
                BuildEvent::Compiled { shader, success: false },
            ),
        ) == BuildAction::Fail(BuildError::Compile(ShaderStage::Compute)),
        pending_action(
            next_state(
                initial_state(ProgramKind::Geometry),
                BuildEvent::Compiled { shader, success: false },
            ),
        ) == BuildAction::Fail(BuildError::Compile(ShaderStage::Vertex)),
        pending_action(
            next_state(
                next_state(
                    initial_state(ProgramKind::Geometry),
                    BuildEvent::Compiled { shader: first, success: true },
                ),
                BuildEvent::Compiled { shader, success: false },
            ),
        ) == BuildAction::Fail(BuildError::Compile(ShaderStage::Fragment)),
{
}

/// A compile that succeeds records its shader after the ones compiled
/// before; the build then asks to compile the next stage, or to link once
/// every stage has compiled.
pub proof fn lemma_successful_compile_advances(s: BuildState, shader: u32)
    requires
        state_wf(s),
        s.phase == BuildPhase::Compiling,
    ensures
        ({
            let t = next_state(s, BuildEvent::Compiled { shader, success: true });
            &&& t.kind == s.kind
            &&& t.compiled == s.compiled.push(shader)
            &&& t.compiled.len() == s.compiled.len() + 1
            &&& t.compiled.last() == shader
            &&& if s.compiled.len() + 1 == stages_of(s.kind).len() {
                pending_action(t) == BuildAction::Link
            } else {
                pending_action(t) == BuildAction::Compile(
                    stages_of(s.kind)[s.compiled.len() + 1int],
                )
            }
        }),
{
}

/// A link report decides the build: success finishes it with the program the
/// driver linked, failure stops it with the error that names the kind of
/// program; the compiled shaders stay as they were.
pub proof fn lemma_link_decides(s: BuildState, program: u32, success: bool)
    requires
        state_wf(s),
        s.phase == BuildPhase::Linking,
    ensures
        ({
            let t = next_state(s, BuildEvent::Linked { program, success });
            &&& t.kind == s.kind
            &&& t.compiled == s.compiled
            &&& success ==> pending_action(t) == BuildAction::Finish(program)
            &&& !success ==> pending_action(t) == BuildAction::Fail(BuildError::Link(s.kind))
        }),
{
}

/// A report that does not answer the pending action changes nothing: a link
/// report while compiling, a compile report while linking.
pub proof fn lemma_out_of_turn_ignored(s: BuildState, e: BuildEvent)
    requires
        (s.phase == BuildPhase::Compiling && e is Linked) || (s.phase == BuildPhase::Linking
            && e is Compiled),
    ensures
        next_state(s, e) == s,
{
}

/// The texts that open the reports of different errors differ, so a report
/// names what failed.
pub proof fn lemma_error_prefixes_distinct(a: BuildError, b: BuildError)
    requires
        a != b,
    ensures
        error_prefix(a) != error_prefix(b),
{
    reveal_strlit("Vertex shader compile error: ");
    reveal_strlit("Fragment shader compile error: ");
    reveal_strlit("Compute shader compile error: ");
    reveal_strlit("Geometry program link error: ");
    reveal_strlit("Compute program link error: ");
    let pa = error_prefix(a);
    let pb = error_prefix(b);
    if pa[0] == pb[0] {
        assert(pa[8] != pb[8]);
    }
}

/// Drives the building of one program.
pub struct ProgramBuilder {
    kind: ProgramKind,
    compiled: Vec<u32>,
    phase: BuildPhase,
}

impl View for ProgramBuilder {
    type V = BuildState;

    closed spec fn view(&self) -> BuildState {
        BuildState { kind: self.kind, compiled: self.compiled@, phase: self.phase }
    }
}

impl ProgramBuilder {
    /// Whether the builder is in one of the states a build can be in.
    pub open spec fn wf(&self) -> bool {
        state_wf(self@)
    }

    /// A build of a program of the given kind, waiting to compile its first stage.
    pub fn new(kind: ProgramKind) -> (builder: ProgramBuilder)
        ensures
            builder@ == initial_state(kind),
            builder.wf(),
            builder@.kind == kind,
            builder@.compiled.len() == 0,
            builder@.phase == BuildPhase::Compiling,
    {
        ProgramBuilder { kind, compiled: Vec::new(), phase: BuildPhase::Compiling }
    }

    /// The kind of program being built.
    pub fn kind(&self) -> (kind: ProgramKind)
        ensures
            kind == self@.kind,
    {
        self.kind
    }

    /// The shader objects compiled so far, in stage order.
    pub fn compiled_shaders(&self) -> (shaders: &[u32])
        ensures
            shaders@ == self@.compiled,
    {
        self.compiled.as_slice()
    }

    /// The action the build waits for.
    pub fn pending(&self) -> (action: BuildAction)
        requires
            self.wf(),
        ensures
            action == pending_action(self@),
    {
        match self.phase {
            BuildPhase::Compiling => BuildAction::Compile(stage_at(self.kind, self.compiled.len())),
            BuildPhase::Linking => BuildAction::Link,
            BuildPhase::Finished(program) => BuildAction::Finish(program),
            BuildPhase::Failed(error) => BuildAction::Fail(error),
        }
    }

    /// Takes in the outcome of the pending action and returns the next action.
    pub fn step(&mut self, event: BuildEvent) -> (action: BuildAction)
        requires
            old(self).wf(),
        ensures
            final(self)@ == next_state(old(self)@, event),
            final(self).wf(),
            action == pending_action(final(self)@),
            final(self)@.kind == old(self)@.kind,
            old(self)@.phase == BuildPhase::Compiling ==> match event {
                BuildEvent::Compiled { shader, success: false } => {
                    &&& action == BuildAction::Fail(
                        BuildError::Compile(stages_of(old(self)@.kind)[old(self)@.compiled.len() as int]),
                    )
                    &&& final(self)@.compiled == old(self)@.compiled
                },
                BuildEvent::Compiled { shader, success: true } => {
                    final(self)@.compiled == old(self)@.compiled.push(shader)
                },
                BuildEvent::Linked { .. } => final(self)@ == old(self)@,
            },
            old(self)@.phase == BuildPhase::Linking ==> match event {
                BuildEvent::Linked { program, success } => {
                    &&& success ==> action == BuildAction::Finish(program)
                    &&& !success ==> action == BuildAction::Fail(BuildError::Link(old(self)@.kind))
                    &&& final(self)@.compiled == old(self)@.compiled
                },
                BuildEvent::Compiled { .. } => final(self)@ == old(self)@,
            },
            (old(self)@.phase is Finished || old(self)@.phase is Failed) ==> final(self)@
                == old(self)@,
    {
        match (self.phase, event) {
            (BuildPhase::Compiling, BuildEvent::Compiled { shader, success }) => {
                if success {
                    self.compiled.push(shader);
                    if self.compiled.len() == stage_count(self.kind) {
                        self.phase = BuildPhase::Linking;
                    }
                } else {
                    self.phase = BuildPhase::Failed(
                        BuildError::Compile(stage_at(self.kind, self.compiled.len())),
                    );
                }
            },
            (BuildPhase::Linking, BuildEvent::Linked { program, success }) => {
                if success {
                    self.phase = BuildPhase::Finished(program);
                } else {
                    self.phase = BuildPhase::Failed(BuildError::Link(self.kind));
                }
            },
            _ => {},
        }
        self.pending()
    }
}

/// The number of stages of a program of the given kind.
fn stage_count(kind: ProgramKind) -> (n: usize)
    ensures
        n == stages_of(kind).len(),
{
    match kind {
        ProgramKind::Geometry => 2,
        ProgramKind::Compute => 1,
    }
}

/// The stage compiled at position `index` in a program of the given kind.
fn stage_at(kind: ProgramKind, index: usize) -> (stage: ShaderStage)
    requires
        index < stages_of(kind).len(),
    ensures
        stage == stages_of(kind)[index as int],
{
    match kind {
        ProgramKind::Geometry => if index == 0 {
            ShaderStage::Vertex
        } else {
            ShaderStage::Fragment
        },
        ProgramKind::Compute => ShaderStage::Compute,
    }
}

} // verus!
