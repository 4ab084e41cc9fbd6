//! The container execution protocol, one task at a time.
//!
//! Each task runs through a strict sequence of steps: admission (unless the
//! task opted out with weight zero), image resolution, an existence probe,
//! a pull only when the probe answered "not present", an uncaptured setup
//! execution when setup commands exist, creation of the captured script
//! container, attach strictly before start, and capture of the output
//! stream in arrival order. The machine here decides every step; the
//! embedding performs the container engine calls and network waits and
//! answers with one event per action. Any failure is terminal for the task
//! and never retried.

use vstd::prelude::*;

use crate::admission::effective_weight;
use crate::admission::effective_weight_spec;
use crate::descriptor::Instance;
use crate::walker::views;

verus! {

/// The commands of a script joined by the command-sequencing operator, so
/// that a failing command aborts the rest: no parts give the empty command,
/// one part stands alone, and each further part is appended after ` && `.
pub open spec fn join_spec(parts: Seq<Seq<char>>) -> Seq<char>
    decreases parts.len(),
{
    if parts.len() == 0 {
        Seq::<char>::empty()
    } else if parts.len() == 1 {
        parts[0]
    } else {
        parts[0] + " && "@ + join_spec(parts.drop_first())
    }
}

/// Joining splits at the last part.
pub proof fn lemma_join_snoc(parts: Seq<Seq<char>>)
    requires
        parts.len() >= 2,
    ensures
        join_spec(parts) == join_spec(parts.drop_last()) + " && "@ + parts.last(),
    decreases parts.len(),
{
    if parts.len() == 2 {
        reveal_with_fuel(join_spec, 3);
        assert(parts.drop_first().len() == 1);
        assert(parts.drop_last().len() == 1);
        assert(parts.drop_first()[0] == parts[1]);
        assert(parts.drop_last()[0] == parts[0]);
        assert(join_spec(parts.drop_first()) == parts[1]);
        assert(join_spec(parts.drop_last()) == parts[0]);
        assert(parts.last() == parts[1]);
        assert(join_spec(parts) =~= join_spec(parts.drop_last()) + " && "@ + parts.last());
    } else {
        lemma_join_snoc(parts.drop_first());
        assert(parts.drop_first().drop_last() =~= parts.drop_last().drop_first());
        assert(parts.drop_last().len() >= 2);
        assert(parts.drop_first().last() == parts.last());
        assert(join_spec(parts) =~= join_spec(parts.drop_last()) + " && "@ + parts.last());
    }
}

/// Join commands with ` && `, so a failing command aborts the rest.
pub fn join_commands(cmds: &Vec<String>) -> (r: String)
    ensures
        r@ == join_spec(views(cmds@)),
{
    let mut out = String::new();
    let mut i: usize = 0;
    while i < cmds.len()
        invariant
            i <= cmds@.len(),
            out@ == join_spec(views(cmds@).take(i as int)),
        decreases cmds@.len() - i,
    {
        if i > 0 {
            out.append(" && ");
        }
        out.append(cmds[i].as_str());
        proof {
            let parts = views(cmds@);
            assert(parts.take(i + 1).last() == parts[i as int]);
            if i == 0 {
                assert(parts.take(1int).len() == 1);
                assert(parts.take(1int)[0] == parts[0]);
                assert(out@ =~= join_spec(parts.take(1int)));
            } else {
                lemma_join_snoc(parts.take(i + 1));
                assert(parts.take(i + 1).drop_last() =~= parts.take(i as int));
                assert(out@ =~= join_spec(parts.take(i + 1)));
            }
        }
        i = i + 1;
    }
    proof {
        assert(views(cmds@).take(cmds@.len() as int) =~= views(cmds@));
    }
    out
}

/// Why a task execution failed.
#[derive(Debug, Clone, Copy, PartialEq, Eq, Structural)]
pub enum EngineError {
    /// The descriptor names no image: a configuration error.
    MissingImage,
    /// A container engine call failed, other than the existence probe's
    /// own "not present" answer.
    EngineCall,
    /// The pull or output stream yielded an error chunk mid-stream; any
    /// partial output is discarded.
    Stream,
    /// A setup command exited with a nonzero status; the script never ran.
    SetupFailed,
    /// The embedding answered a state with an event that state cannot take.
    Protocol,
}

/// What the embedding reports back to the machine, one event per action.
#[derive(Debug, PartialEq, Eq)]
pub enum EngineEvent {
    /// The admission controller granted the requested capacity.
    Admitted,
    /// The existence probe answered: present, or the engine's specific
    /// "not found" signal.
    Inspected { found: bool },
    /// One pull progress event arrived; observational only.
    PullProgress,
    /// The pull stream completed.
    PullDone,
    /// The setup execution exited, successfully or not.
    SetupExited { success: bool },
    /// The container was created, under this identifier.
    Created { container: String },
    /// The attach handle is established.
    Attached,
    /// The container was started.
    Started,
    /// One chunk of captured output arrived.
    OutputChunk { bytes: Vec<u8> },
    /// The output stream ended.
    OutputEnd,
    /// A container engine call failed.
    CallFailed,
    /// A stream yielded an error chunk.
    StreamFailed,
}

/// What the embedding must do next.
#[derive(Debug, PartialEq, Eq)]
pub enum EngineAction {
    /// Wait on the admission controller for this many capacity units.
    Acquire { weight: usize },
    /// Ask the container engine whether the image is present.
    Inspect { image: String },
    /// Pull the image, consuming its progress stream to completion.
    Pull { image: String },
    /// Run the setup commands as one uncaptured preliminary execution on
    /// the same image; only the exit status matters.
    RunSetup { image: String, command: String },
    /// Create the captured container running the script command under a
    /// shell, with standard out and error attached.
    Create { image: String, command: String },
    /// Attach to the container's combined output stream.
    Attach { container: String },
    /// Start the container; issued only once the attach handle exists.
    Start { container: String },
    /// Keep consuming the stream just reported from.
    Observe,
    /// The capture is complete: decode and render these bytes.
    Render { bytes: Vec<u8> },
    /// The task failed; release its resources and surface this error.
    Fail { error: EngineError },
    /// The task is complete; nothing remains to do.
    Halt,
}

/// Where one task execution stands.
#[derive(Debug, PartialEq, Eq)]
pub enum EngineState {
    /// Waiting for the admission controller.
    AwaitAdmission,
    /// Waiting for the existence probe's answer.
    AwaitInspect,
    /// Waiting for the pull stream to finish.
    AwaitPull,
    /// Waiting for the setup execution to exit.
    AwaitSetup,
    /// Waiting for the container to be created.
    AwaitCreate,
    /// Waiting for the attach handle on this container.
    AwaitAttach { container: String },
    /// Waiting for the start acknowledgment of this container.
    AwaitStart { container: String },
    /// Consuming the output stream; the bytes captured so far, in order.
    Streaming { output: Vec<u8> },
    /// The capture completed with these bytes.
    Done { output: Vec<u8> },
    /// The task failed.
    Failed { error: EngineError },
}

/// One task execution: its descriptor and where it stands.
#[derive(Debug)]
pub struct Execution {
    /// The task being executed; never changes during the execution.
    pub descriptor: Instance,
    /// Where the execution stands.
    pub state: EngineState,
}

/// The image the descriptor names, as a character sequence.
pub open spec fn image_view(d: Instance) -> Seq<char> {
    match d.image {
        Some(s) => s@,
        None => Seq::<char>::empty(),
    }
}

/// The single shell command the setup commands join into.
pub open spec fn setup_command_view(d: Instance) -> Seq<char> {
    join_spec(views(d.setup@))
}

/// The single shell command the script joins into.
pub open spec fn script_command_view(d: Instance) -> Seq<char> {
    join_spec(views(d.script@))
}

/// The machine failed with this error and tells the embedding so.
pub open spec fn failed_ok(post: EngineState, act: EngineAction, e: EngineError) -> bool {
    &&& post == (EngineState::Failed { error: e })
    &&& act == (EngineAction::Fail { error: e })
}

/// Image resolution: a descriptor without an image is a configuration
/// error; otherwise the existence probe is issued.
pub open spec fn resolve_ok(d: Instance, post: EngineState, act: EngineAction) -> bool {
    match d.image {
        None => failed_ok(post, act, EngineError::MissingImage),
        Some(img) => {
            &&& post is AwaitInspect
            &&& act matches EngineAction::Inspect { image } && image@ == img@
        },
    }
}

/// The image is present: run the setup commands first when there are any,
/// else create the script container at once.
pub open spec fn launch_ok(d: Instance, post: EngineState, act: EngineAction) -> bool {
    if d.setup@.len() > 0 {
        &&& post is AwaitSetup
        &&& act matches EngineAction::RunSetup { image, command } && image@ == image_view(d)
            && command@ == setup_command_view(d)
    } else {
        create_ok(d, post, act)
    }
}

/// Create the captured script container.
pub open spec fn create_ok(d: Instance, post: EngineState, act: EngineAction) -> bool {
    &&& post is AwaitCreate
    &&& act matches EngineAction::Create { image, command } && image@ == image_view(d)
        && command@ == script_command_view(d)
}

/// The first state and action of a task execution: a task with declared
/// weight zero opts out of admission control and resolves its image at
/// once; every other task first waits for its effective weight.
pub open spec fn begin_ok(
    d: Instance,
    parallel: usize,
    post: EngineState,
    act: EngineAction,
) -> bool {
    if d.weight == Some(0u32) {
        resolve_ok(d, post, act)
    } else {
        &&& post is AwaitAdmission
        &&& act matches EngineAction::Acquire { weight } && weight == effective_weight_spec(
            d.weight,
            parallel,
        )
    }
}

/// The transition relation of the execution protocol: for a machine in
/// `pre` answering event `ev`, the successor state `post` and the action
/// `act` the embedding is told to perform. `Done` and `Failed` absorb
/// every further event; an event a state cannot take is a protocol error.
pub open spec fn step_ok(
    pre: Execution,
    ev: EngineEvent,
    post: Execution,
    act: EngineAction,
) -> bool {
    &&& post.descriptor == pre.descriptor
    &&& match (pre.state, ev) {
        (EngineState::AwaitAdmission, EngineEvent::Admitted) => resolve_ok(
            pre.descriptor,
            post.state,
            act,
        ),
        (EngineState::AwaitInspect, EngineEvent::Inspected { found }) => {
            if found {
                launch_ok(pre.descriptor, post.state, act)
            } else {
                &&& post.state is AwaitPull
                &&& act matches EngineAction::Pull { image } && image@ == image_view(
                    pre.descriptor,
                )
            }
        },
        (EngineState::AwaitInspect, EngineEvent::CallFailed) => failed_ok(
            post.state,
            act,
            EngineError::EngineCall,
        ),
        (EngineState::AwaitPull, EngineEvent::PullProgress) => {
            post.state is AwaitPull && act == EngineAction::Observe
        },
        (EngineState::AwaitPull, EngineEvent::PullDone) => launch_ok(
            pre.descriptor,
            post.state,
            act,
        ),
        (EngineState::AwaitPull, EngineEvent::StreamFailed) => failed_ok(
            post.state,
            act,
            EngineError::Stream,
        ),
        (EngineState::AwaitSetup, EngineEvent::SetupExited { success }) => {
            if success {
                create_ok(pre.descriptor, post.state, act)
            } else {
                failed_ok(post.state, act, EngineError::SetupFailed)
            }
        },
        (EngineState::AwaitSetup, EngineEvent::CallFailed) => failed_ok(
            post.state,
            act,
            EngineError::EngineCall,
        ),
        (EngineState::AwaitCreate, EngineEvent::Created { container }) => {
            &&& post.state matches EngineState::AwaitAttach { container: c } && c@ == container@
            &&& act matches EngineAction::Attach { container: c } && c@ == container@
        },
        (EngineState::AwaitCreate, EngineEvent::CallFailed) => failed_ok(
            post.state,
            act,
            EngineError::EngineCall,
        ),
        (EngineState::AwaitAttach { container }, EngineEvent::Attached) => {
            &&& post.state matches EngineState::AwaitStart { container: c } && c@ == container@
            &&& act matches EngineAction::Start { container: c } && c@ == container@
        },
        (EngineState::AwaitAttach { .. }, EngineEvent::CallFailed) => failed_ok(
            post.state,
            act,
            EngineError::EngineCall,
        ),
        (EngineState::AwaitStart { .. }, EngineEvent::Started) => {
            &&& post.state matches EngineState::Streaming { output } && output@ == Seq::<
                u8,
            >::empty()
            &&& act == EngineAction::Observe
        },
        (EngineState::AwaitStart { .. }, EngineEvent::CallFailed) => failed_ok(
            post.state,
            act,
            EngineError::EngineCall,
        ),
        (EngineState::Streaming { output }, EngineEvent::OutputChunk { bytes }) => {
            &&& post.state matches EngineState::Streaming { output: o } && o@ == output@ + bytes@
            &&& act == EngineAction::Observe
        },
        (EngineState::Streaming { output }, EngineEvent::OutputEnd) => {
            &&& post.state matches EngineState::Done { output: o } && o@ == output@
            &&& act matches EngineAction::Render { bytes } && bytes@ == output@
        },
        (EngineState::Streaming { .. }, EngineEvent::StreamFailed) => failed_ok(
            post.state,
            act,
            EngineError::Stream,
        ),
        (EngineState::Done { output }, _) => {
            &&& post.state matches EngineState::Done { output: o } && o@ == output@
            &&& act == EngineAction::Halt
        },
        (EngineState::Failed { error }, _) => {
            &&& post.state == (EngineState::Failed { error })
            &&& act == (EngineAction::Fail { error })
        },
        (_, _) => failed_ok(post.state, act, EngineError::Protocol),
    }
}

impl Execution {
    /// Start one task execution: the machine's first state and the first
    /// action the embedding must perform.
    pub fn begin(descriptor: Instance, parallel: usize) -> (r: (Execution, EngineAction))
        ensures
            r.0.descriptor == descriptor,
            begin_ok(descriptor, parallel, r.0.state, r.1),
    {
        let opted_out = match descriptor.weight {
            Some(w) => w == 0u32,
            None => false,
        };
        if opted_out {
            let (state, act) = resolve(&descriptor);
            (Execution { descriptor, state }, act)
        } else {
            let weight = effective_weight(descriptor.weight, parallel);
            (
                Execution { descriptor, state: EngineState::AwaitAdmission },
                EngineAction::Acquire { weight },
            )
        }
    }

    /// Answer one event: move to the successor state and say what the
    /// embedding must do next.
    pub fn step(self, ev: EngineEvent) -> (r: (Execution, EngineAction))
        ensures
            step_ok(self, ev, r.0, r.1),
    {
        let Execution { descriptor, state } = self;
        let (state, act): (EngineState, EngineAction) = match (state, ev) {
            (EngineState::AwaitAdmission, EngineEvent::Admitted) => resolve(&descriptor),
            (EngineState::AwaitInspect, EngineEvent::Inspected { found }) => {
                if found {
                    launch(&descriptor)
                } else {
                    let image = image_of(&descriptor);
                    (EngineState::AwaitPull, EngineAction::Pull { image })
                }
            },
            (EngineState::AwaitInspect, EngineEvent::CallFailed) => fail(
                EngineError::EngineCall,
            ),
            (EngineState::AwaitPull, EngineEvent::PullProgress) => (
                EngineState::AwaitPull,
                EngineAction::Observe,
            ),
            (EngineState::AwaitPull, EngineEvent::PullDone) => launch(&descriptor),
            (EngineState::AwaitPull, EngineEvent::StreamFailed) => fail(EngineError::Stream),
            (EngineState::AwaitSetup, EngineEvent::SetupExited { success }) => {
                if success {
                    create(&descriptor)
                } else {
                    fail(EngineError::SetupFailed)
                }
            },
            (EngineState::AwaitSetup, EngineEvent::CallFailed) => fail(EngineError::EngineCall),
            (EngineState::AwaitCreate, EngineEvent::Created { container }) => {
                let handle = container.clone();
                (
                    EngineState::AwaitAttach { container },
                    EngineAction::Attach { container: handle },
                )
            },
            (EngineState::AwaitCreate, EngineEvent::CallFailed) => fail(EngineError::EngineCall),
            (EngineState::AwaitAttach { container }, EngineEvent::Attached) => {
                let handle = container.clone();
                (
                    EngineState::AwaitStart { container },
                    EngineAction::Start { container: handle },
                )
            },
            (EngineState::AwaitAttach { .. }, EngineEvent::CallFailed) => fail(
                EngineError::EngineCall,
            ),
            (EngineState::AwaitStart { .. }, EngineEvent::Started) => (
                EngineState::Streaming { output: Vec::new() },
                EngineAction::Observe,
            ),
            (EngineState::AwaitStart { .. }, EngineEvent::CallFailed) => fail(
                EngineError::EngineCall,
            ),
            (EngineState::Streaming { output }, EngineEvent::OutputChunk { bytes }) => {
                let mut output = output;
                let mut bytes = bytes;
                output.append(&mut bytes);
                (EngineState::Streaming { output }, EngineAction::Observe)
            },
            (EngineState::Streaming { output }, EngineEvent::OutputEnd) => {
                let bytes = clone_bytes(&output);
                (EngineState::Done { output }, EngineAction::Render { bytes })
            },
            (EngineState::Streaming { .. }, EngineEvent::StreamFailed) => fail(
                EngineError::Stream,
            ),
            (EngineState::Done { output }, _) => (
                EngineState::Done { output },
                EngineAction::Halt,
            ),
            (EngineState::Failed { error }, _) => (
                EngineState::Failed { error },
                EngineAction::Fail { error },
            ),
            (_, _) => fail(EngineError::Protocol),
        };
        (Execution { descriptor, state }, act)
    }
}

/// One recorded step of an execution: the event answered, the machine's
/// resulting state, and the action it told the embedding to perform.
pub struct TraceStep {
    /// The event the embedding handed back.
    pub event: EngineEvent,
    /// The execution after the step.
    pub execution: Execution,
    /// The action the machine answered with.
    pub action: EngineAction,
}

/// A trace is valid when every recorded step follows the transition
/// relation from its predecessor's state.
pub open spec fn trace_ok(start: Execution, steps: Seq<TraceStep>) -> bool
    decreases steps.len(),
{
    steps.len() == 0 || {
        &&& step_ok(start, steps[0].event, steps[0].execution, steps[0].action)
        &&& trace_ok(steps[0].execution, steps.drop_first())
    }
}

/// How many pull actions a trace performs.
pub open spec fn pull_count(steps: Seq<TraceStep>) -> nat
    decreases steps.len(),
{
    if steps.len() == 0 {
        0
    } else {
        (if steps[0].action is Pull {
            1nat
        } else {
            0nat
        }) + pull_count(steps.drop_first())
    }
}

/// The protocol's phases, in their strict order; failure is terminal.
pub open spec fn phase(s: EngineState) -> int {
    match s {
        EngineState::AwaitAdmission => 0,
        EngineState::AwaitInspect => 1,
        EngineState::AwaitPull => 2,
        EngineState::AwaitSetup => 3,
        EngineState::AwaitCreate => 4,
        EngineState::AwaitAttach { .. } => 5,
        EngineState::AwaitStart { .. } => 6,
        EngineState::Streaming { .. } => 7,
        EngineState::Done { .. } => 8,
        EngineState::Failed { .. } => 9,
    }
}

/// The protocol never moves backwards: each step keeps or raises the phase.
pub proof fn lemma_phase_monotone(pre: Execution, ev: EngineEvent, post: Execution, act: EngineAction)
    requires
        step_ok(pre, ev, post, act),
    ensures
        phase(post.state) >= phase(pre.state),
{
}

/// A pull is decided in exactly one place: the existence probe answering
/// that the image is not present. No other state and event produce one.
pub proof fn lemma_pull_needs_missing(
    pre: Execution,
    ev: EngineEvent,
    post: Execution,
    act: EngineAction,
)
    requires
        step_ok(pre, ev, post, act),
        act is Pull,
    ensures
        pre.state is AwaitInspect,
        ev == (EngineEvent::Inspected { found: false }),
        post.state is AwaitPull,
{
}

/// Pull idempotence, first half: one execution never pulls twice. Once the
/// machine has passed the probe, it never returns to it, so at most one
/// pull is ever requested — and none at all when the execution starts past
/// the probe.
pub proof fn lemma_pull_at_most_once(start: Execution, steps: Seq<TraceStep>)
    requires
        trace_ok(start, steps),
    ensures
        pull_count(steps) <= if phase(start.state) <= 1 {
            1nat
        } else {
            0nat
        },
    decreases steps.len(),
{
    if steps.len() > 0 {
        let first = steps[0];
        lemma_phase_monotone(start, first.event, first.execution, first.action);
        if first.action is Pull {
            lemma_pull_needs_missing(start, first.event, first.execution, first.action);
        }
        lemma_pull_at_most_once(first.execution, steps.drop_first());
    }
}

/// Pull idempotence, second half: when the probe never answers "not
/// present" — in particular, when the image is already present — the
/// execution performs no pull at all.
pub proof fn lemma_no_pull_when_present(start: Execution, steps: Seq<TraceStep>)
    requires
        trace_ok(start, steps),
        forall|i: int|
            0 <= i < steps.len() ==> #[trigger] steps[i].event != (EngineEvent::Inspected {
                found: false,
            }),
    ensures
        pull_count(steps) == 0,
    decreases steps.len(),
{
    if steps.len() > 0 {
        let first = steps[0];
        if first.action is Pull {
            lemma_pull_needs_missing(start, first.event, first.execution, first.action);
            assert(steps[0].event == (EngineEvent::Inspected { found: false }));
        }
        assert forall|i: int| 0 <= i < steps.drop_first().len() implies #[trigger] steps.drop_first()[i].event
            != (EngineEvent::Inspected { found: false }) by {
            assert(steps.drop_first()[i] == steps[i + 1]);
        }
        lemma_no_pull_when_present(first.execution, steps.drop_first());
    }
}

/// Failure is absorbing: from a failed state the machine only ever reports
/// the failure again, and never issues another piece of work.
pub proof fn lemma_failed_absorbing(start: Execution, steps: Seq<TraceStep>)
    requires
        trace_ok(start, steps),
        start.state is Failed,
    ensures
        forall|i: int|
            0 <= i < steps.len() ==> (#[trigger] steps[i].action) is Fail
                && steps[i].execution.state is Failed,
    decreases steps.len(),
{
    if steps.len() > 0 {
        lemma_failed_absorbing(steps[0].execution, steps.drop_first());
        assert forall|i: int| 0 <= i < steps.len() implies (#[trigger] steps[i].action) is Fail
            && steps[i].execution.state is Failed by {
            if i > 0 {
                assert(steps.drop_first()[i - 1] == steps[i]);
            }
        }
    }
}

/// A failing setup aborts the task before the script ever runs: the step
/// answering the failed setup reports the failure, and the rest of the
/// trace never creates the script container, never starts anything, and
/// never renders captured output.
pub proof fn lemma_setup_failure_aborts(start: Execution, steps: Seq<TraceStep>)
    requires
        trace_ok(start, steps),
        start.state is AwaitSetup,
        steps.len() > 0,
        steps[0].event == (EngineEvent::SetupExited { success: false }),
    ensures
        steps[0].action == (EngineAction::Fail { error: EngineError::SetupFailed }),
        forall|i: int|
            0 <= i < steps.len() ==> !((#[trigger] steps[i].action) is Create) && !(
            steps[i].action is Start) && !(steps[i].action is Render),
{
    lemma_failed_absorbing(steps[0].execution, steps.drop_first());
    assert forall|i: int| 0 <= i < steps.len() implies !((#[trigger] steps[i].action) is Create)
        && !(steps[i].action is Start) && !(steps[i].action is Render) by {
        if i > 0 {
            assert(steps.drop_first()[i - 1] == steps[i]);
        }
    }
}

/// The script container is created only once the image is ready and the
/// setup (when any) has succeeded: straight after a probe that found the
/// image, after the one pull that a missing image forces, or after the
/// setup execution exited successfully.
pub proof fn lemma_create_needs_ready_image(
    pre: Execution,
    ev: EngineEvent,
    post: Execution,
    act: EngineAction,
)
    requires
        step_ok(pre, ev, post, act),
        act is Create,
    ensures
        (pre.state is AwaitInspect && ev == (EngineEvent::Inspected { found: true })
            && pre.descriptor.setup@.len() == 0) || (pre.state is AwaitPull && ev
            == EngineEvent::PullDone && pre.descriptor.setup@.len() == 0) || (pre.state
            is AwaitSetup && ev == (EngineEvent::SetupExited { success: true })),
{
}

/// A start is issued only in answer to an established attach handle, so no
/// early output can be lost.
pub proof fn lemma_start_needs_attach(
    pre: Execution,
    ev: EngineEvent,
    post: Execution,
    act: EngineAction,
)
    requires
        step_ok(pre, ev, post, act),
        act is Start,
    ensures
        pre.state is AwaitAttach,
        ev == EngineEvent::Attached,
        post.state is AwaitStart,
{
}

/// Weight-zero opt-out: a task declared with weight zero never waits on
/// the admission controller — its first action is never an acquisition,
/// whatever the controller's saturation.
pub proof fn lemma_weight_zero_opt_out(
    d: Instance,
    parallel: usize,
    post: EngineState,
    act: EngineAction,
)
    requires
        d.weight == Some(0u32),
        begin_ok(d, parallel, post, act),
    ensures
        !(act is Acquire),
{
}

/// A failed state and the action announcing it.
fn fail(error: EngineError) -> (r: (EngineState, EngineAction))
    ensures
        failed_ok(r.0, r.1, error),
{
    (EngineState::Failed { error }, EngineAction::Fail { error })
}

/// The descriptor's image, cloned for an action; empty when absent (only
/// reached when resolution already guaranteed presence).
fn image_of(d: &Instance) -> (r: String)
    ensures
        r@ == image_view(*d),
{
    match &d.image {
        Some(img) => img.clone(),
        None => String::new(),
    }
}

/// Resolve the image and issue the existence probe.
fn resolve(d: &Instance) -> (r: (EngineState, EngineAction))
    ensures
        resolve_ok(*d, r.0, r.1),
{
    match &d.image {
        None => fail(EngineError::MissingImage),
        Some(img) => {
            let image = img.clone();
            (EngineState::AwaitInspect, EngineAction::Inspect { image })
        },
    }
}

/// With the image present, run setup first when it exists, else create.
fn launch(d: &Instance) -> (r: (EngineState, EngineAction))
    ensures
        launch_ok(*d, r.0, r.1),
{
    if d.setup.len() > 0 {
        let image = image_of(d);
        let command = join_commands(&d.setup);
        (EngineState::AwaitSetup, EngineAction::RunSetup { image, command })
    } else {
        create(d)
    }
}

/// Create the captured script container.
fn create(d: &Instance) -> (r: (EngineState, EngineAction))
    ensures
        create_ok(*d, r.0, r.1),
{
    let image = image_of(d);
    let command = join_commands(&d.script);
    (EngineState::AwaitCreate, EngineAction::Create { image, command })
}

/// A copy of captured bytes for the render action.
fn clone_bytes(v: &Vec<u8>) -> (r: Vec<u8>)
    ensures
        r@ == v@,
{
    let mut out: Vec<u8> = Vec::new();
    let mut i: usize = 0;
    while i < v.len()
        invariant
            i <= v@.len(),
            out@ == v@.take(i as int),
        decreases v@.len() - i,
    {
        out.push(v[i]);
        proof {
            assert(out@ =~= v@.take(i + 1));
        }
        i = i + 1;
    }
    proof {
        assert(v@.take(v@.len() as int) =~= v@);
    }
    out
}

} // verus!
