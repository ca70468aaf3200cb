//! Building the shader program: which GPU calls are made, in which order, and
//! when the build is given up.
//!
//! The GPU calls themselves are made by the caller. After each call that
//! reports a status the caller hands the status to [`advance`], which answers
//! with the operations to perform next.

use vstd::prelude::*;

verus! {

/// The two programmable stages, in the order in which they are compiled.
#[derive(PartialEq, Eq, Structural, Clone, Copy, Debug)]
pub enum ShaderStage {
    Vertex,
    Fragment,
}

/// How far a build has come.
#[derive(PartialEq, Eq, Structural, Clone, Copy, Debug)]
pub enum BuildState {
    /// Nothing has been asked of the GPU yet.
    Idle,
    /// A shader of this stage was sent to compile and its status is awaited.
    Compiling(ShaderStage),
    /// Both shaders are attached, the program was sent to link and its status
    /// is awaited.
    Linking,
    /// The program linked and its shaders were released.
    Ready,
    /// A shader did not compile or the program did not link.
    Failed,
}

/// What the caller reports.
#[derive(PartialEq, Eq, Structural, Clone, Copy, Debug)]
pub enum BuildEvent {
    /// The empty program object exists.
    Start,
    /// Whether the shader that was last sent to compile compiled.
    CompileStatus(bool),
    /// Whether the program linked.
    LinkStatus(bool),
}

/// One operation for the caller to perform.
#[derive(PartialEq, Eq, Structural, Clone, Copy, Debug)]
pub enum BuildOp {
    /// Create a shader of this stage, give it its source, compile it and
    /// report its compile status.
    Compile(ShaderStage),
    /// Attach the shader that was compiled last.
    Attach,
    /// Link the program and report its link status.
    Link,
    /// Detach and delete every attached shader, in the order in which they
    /// were attached.
    Release,
    /// Give up, with the info log of the shader that was compiled last.
    FailWithShaderLog,
    /// Give up, with the program's info log.
    FailWithProgramLog,
}

/// The transition table: the state that follows `state` on `event` and the
/// operations to perform on the way, or `None` where `event` is not an answer
/// to anything asked in `state`.
pub open spec fn transition(state: BuildState, event: BuildEvent) -> Option<
    (BuildState, Seq<BuildOp>),
> {
    match (state, event) {
        (BuildState::Idle, BuildEvent::Start) => Some(
            (BuildState::Compiling(ShaderStage::Vertex), seq![BuildOp::Compile(ShaderStage::Vertex)]),
        ),
        (BuildState::Compiling(ShaderStage::Vertex), BuildEvent::CompileStatus(true)) => Some(
            (
                BuildState::Compiling(ShaderStage::Fragment),
                seq![BuildOp::Attach, BuildOp::Compile(ShaderStage::Fragment)],
            ),
        ),
        (BuildState::Compiling(ShaderStage::Fragment), BuildEvent::CompileStatus(true)) => Some(
            (BuildState::Linking, seq![BuildOp::Attach, BuildOp::Link]),
        ),
        (BuildState::Compiling(_), BuildEvent::CompileStatus(false)) => Some(
            (BuildState::Failed, seq![BuildOp::FailWithShaderLog]),
        ),
        (BuildState::Linking, BuildEvent::LinkStatus(true)) => Some(
            (BuildState::Ready, seq![BuildOp::Release]),
        ),
        (BuildState::Linking, BuildEvent::LinkStatus(false)) => Some(
            (BuildState::Failed, seq![BuildOp::FailWithProgramLog]),
        ),
        _ => None,
    }
}

/// Takes one step of the build: the next state and the operations to perform
/// now, in order. `None` if `event` answers nothing that was asked in `state`;
/// the build then stays where it is.
pub fn advance(state: BuildState, event: BuildEvent) -> (step: Option<(BuildState, Vec<BuildOp>)>)
    ensures
        match step {
            Some((next, ops)) => transition(state, event) == Some((next, ops@)),
            None => transition(state, event) is None,
        },
{
    match state {
        BuildState::Idle => match event {
            BuildEvent::Start => {
                let ops = vec![BuildOp::Compile(ShaderStage::Vertex)];
                Some((BuildState::Compiling(ShaderStage::Vertex), ops))
            },
            _ => None,
        },
        BuildState::Compiling(stage) => match event {
            BuildEvent::CompileStatus(true) => match stage {
                ShaderStage::Vertex => {
                    let ops = vec![BuildOp::Attach, BuildOp::Compile(ShaderStage::Fragment)];
                    Some((BuildState::Compiling(ShaderStage::Fragment), ops))
                },
                ShaderStage::Fragment => {
                    let ops = vec![BuildOp::Attach, BuildOp::Link];
                    Some((BuildState::Linking, ops))
                },
            },
            BuildEvent::CompileStatus(false) => {
                let ops = vec![BuildOp::FailWithShaderLog];
                Some((BuildState::Failed, ops))
            },
            _ => None,
        },
        BuildState::Linking => match event {
            BuildEvent::LinkStatus(true) => {
                let ops = vec![BuildOp::Release];
                Some((BuildState::Ready, ops))
            },
            BuildEvent::LinkStatus(false) => {
                let ops = vec![BuildOp::FailWithProgramLog];
                Some((BuildState::Failed, ops))
            },
            _ => None,
        },
        BuildState::Ready => None,
        BuildState::Failed => None,
    }
}

/// A whole build: the state that `events`, reported one after the other from
/// `state` on, lead to, and all operations performed on the way. `None` if one
/// of the events is not accepted.
pub open spec fn run(state: BuildState, events: Seq<BuildEvent>) -> Option<
    (BuildState, Seq<BuildOp>),
>
    decreases events.len(),
{
    if events.len() == 0 {
        Some((state, Seq::empty()))
    } else {
        match run(state, events.drop_last()) {
            None => None,
            Some((reached, done)) => match transition(reached, events.last()) {
                None => None,
                Some((next, ops)) => Some((next, done + ops)),
            },
        }
    }
}

/// The builds there are: `state` is reached from `Idle` by `events`, with
/// `ops` performed. Five of them go forward, three end in a failure.
pub open spec fn is_build(state: BuildState, events: Seq<BuildEvent>, ops: Seq<BuildOp>) -> bool {
    match state {
        BuildState::Idle => events == Seq::<BuildEvent>::empty() && ops == Seq::<BuildOp>::empty(),
        BuildState::Compiling(ShaderStage::Vertex) => {
            &&& events == seq![BuildEvent::Start]
            &&& ops == seq![BuildOp::Compile(ShaderStage::Vertex)]
        },
        BuildState::Compiling(ShaderStage::Fragment) => {
            &&& events == seq![BuildEvent::Start, BuildEvent::CompileStatus(true)]
            &&& ops == seq![
                BuildOp::Compile(ShaderStage::Vertex),
                BuildOp::Attach,
                BuildOp::Compile(ShaderStage::Fragment),
            ]
        },
        BuildState::Linking => {
            &&& events == seq![
                BuildEvent::Start,
                BuildEvent::CompileStatus(true),
                BuildEvent::CompileStatus(true),
            ]
            &&& ops == seq![
                BuildOp::Compile(ShaderStage::Vertex),
                BuildOp::Attach,
                BuildOp::Compile(ShaderStage::Fragment),
                BuildOp::Attach,
                BuildOp::Link,
            ]
        },
        BuildState::Ready => events == successful_events() && ops == successful_ops(),
        BuildState::Failed => {
            ||| {
                &&& events == seq![BuildEvent::Start, BuildEvent::CompileStatus(false)]
                &&& ops == seq![BuildOp::Compile(ShaderStage::Vertex), BuildOp::FailWithShaderLog]
            }
            ||| {
                &&& events == seq![
                    BuildEvent::Start,
                    BuildEvent::CompileStatus(true),
                    BuildEvent::CompileStatus(false),
                ]
                &&& ops == seq![
                    BuildOp::Compile(ShaderStage::Vertex),
                    BuildOp::Attach,
                    BuildOp::Compile(ShaderStage::Fragment),
                    BuildOp::FailWithShaderLog,
                ]
            }
            ||| {
                &&& events == seq![
                    BuildEvent::Start,
                    BuildEvent::CompileStatus(true),
                    BuildEvent::CompileStatus(true),
                    BuildEvent::LinkStatus(false),
                ]
                &&& ops == seq![
                    BuildOp::Compile(ShaderStage::Vertex),
                    BuildOp::Attach,
                    BuildOp::Compile(ShaderStage::Fragment),
                    BuildOp::Attach,
                    BuildOp::Link,
                    BuildOp::FailWithProgramLog,
                ]
            }
        },
    }
}

/// The reports of a build in which nothing fails.
pub open spec fn successful_events() -> Seq<BuildEvent> {
    seq![
        BuildEvent::Start,
        BuildEvent::CompileStatus(true),
        BuildEvent::CompileStatus(true),
        BuildEvent::LinkStatus(true),
    ]
}

/// The operations of a build in which nothing fails.
pub open spec fn successful_ops() -> Seq<BuildOp> {
    seq![
        BuildOp::Compile(ShaderStage::Vertex),
        BuildOp::Attach,
        BuildOp::Compile(ShaderStage::Fragment),
        BuildOp::Attach,
        BuildOp::Link,
        BuildOp::Release,
    ]
}

/// Whatever is reported, a build that accepts every report is one of the
/// eight that `is_build` lists. So the vertex shader is compiled before the
/// fragment shader, each is attached right after it compiled, the program is
/// linked only with both attached, the shaders are released only after it
/// linked, and a failure is the last thing that happens.
pub proof fn lemma_run_is_build(events: Seq<BuildEvent>)
    requires
        run(BuildState::Idle, events) is Some,
    ensures
        is_build(
            run(BuildState::Idle, events)->Some_0.0,
            events,
            run(BuildState::Idle, events)->Some_0.1,
        ),
    decreases events.len(),
{
    if events.len() > 0 {
        let earlier = events.drop_last();
        lemma_run_is_build(earlier);
        let (reached, done) = run(BuildState::Idle, earlier)->Some_0;
        let (next, ops) = transition(reached, events.last())->Some_0;
        let all = done + ops;
        assert(events =~= earlier.push(events.last()));
        match (reached, events.last()) {
            (BuildState::Idle, BuildEvent::Start) => {
                assert(events =~= seq![BuildEvent::Start]);
                assert(all =~= seq![BuildOp::Compile(ShaderStage::Vertex)]);
            },
            (BuildState::Compiling(ShaderStage::Vertex), BuildEvent::CompileStatus(true)) => {
                assert(events =~= seq![BuildEvent::Start, BuildEvent::CompileStatus(true)]);
                assert(all =~= seq![
                    BuildOp::Compile(ShaderStage::Vertex),
                    BuildOp::Attach,
                    BuildOp::Compile(ShaderStage::Fragment),
                ]);
            },
            (BuildState::Compiling(ShaderStage::Vertex), BuildEvent::CompileStatus(false)) => {
                assert(events =~= seq![BuildEvent::Start, BuildEvent::CompileStatus(false)]);
                assert(all =~= seq![
                    BuildOp::Compile(ShaderStage::Vertex),
                    BuildOp::FailWithShaderLog,
                ]);
            },
            (BuildState::Compiling(ShaderStage::Fragment), BuildEvent::CompileStatus(true)) => {
                assert(events =~= seq![
                    BuildEvent::Start,
                    BuildEvent::CompileStatus(true),
                    BuildEvent::CompileStatus(true),
                ]);
                assert(all =~= seq![
                    BuildOp::Compile(ShaderStage::Vertex),
                    BuildOp::Attach,
                    BuildOp::Compile(ShaderStage::Fragment),
                    BuildOp::Attach,
                    BuildOp::Link,
                ]);
            },
            (BuildState::Compiling(ShaderStage::Fragment), BuildEvent::CompileStatus(false)) => {
                assert(events =~= seq![
                    BuildEvent::Start,
                    BuildEvent::CompileStatus(true),
                    BuildEvent::CompileStatus(false),
                ]);
                assert(all =~= seq![
                    BuildOp::Compile(ShaderStage::Vertex),
                    BuildOp::Attach,
                    BuildOp::Compile(ShaderStage::Fragment),
                    BuildOp::FailWithShaderLog,
                ]);
            },
            (BuildState::Linking, BuildEvent::LinkStatus(true)) => {
                assert(events =~= successful_events());
                assert(all =~= successful_ops());
            },
            (BuildState::Linking, BuildEvent::LinkStatus(false)) => {
                assert(events =~= seq![
                    BuildEvent::Start,
                    BuildEvent::CompileStatus(true),
                    BuildEvent::CompileStatus(true),
                    BuildEvent::LinkStatus(false),
                ]);
                assert(all =~= seq![
                    BuildOp::Compile(ShaderStage::Vertex),
                    BuildOp::Attach,
                    BuildOp::Compile(ShaderStage::Fragment),
                    BuildOp::Attach,
                    BuildOp::Link,
                    BuildOp::FailWithProgramLog,
                ]);
            },
            _ => {},
        }
    } else {
        assert(events =~= Seq::<BuildEvent>::empty());
    }
}

/// The program gets ready exactly when both shaders compile and the program
/// links, and then by the six operations of `successful_ops`.
pub proof fn lemma_ready_iff_all_succeed(events: Seq<BuildEvent>)
    ensures
        run(BuildState::Idle, events) matches Some((state, _)) && state == BuildState::Ready
            <==> events == successful_events(),
        events == successful_events() ==> run(BuildState::Idle, events) == Some(
            (BuildState::Ready, successful_ops()),
        ),
{
    if run(BuildState::Idle, events) is Some {
        lemma_run_is_build(events);
    }
    if events == successful_events() {
        lemma_successful_run();
    }
}

/// The successful build, step by step.
proof fn lemma_successful_run()
    ensures
        run(BuildState::Idle, successful_events()) == Some((BuildState::Ready, successful_ops())),
{
    reveal_with_fuel(run, 5);
    let (_, ops) = run(BuildState::Idle, successful_events())->Some_0;
    assert(ops =~= successful_ops());
}

/// A build that is ready or has failed is over: it accepts no report.
pub proof fn lemma_over_stays_over(state: BuildState, event: BuildEvent)
    requires
        state == BuildState::Ready || state == BuildState::Failed,
    ensures
        transition(state, event) is None,
{
}

} // verus!
