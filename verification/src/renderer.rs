//! The frame loop: one aggregate of scene, timing and queued commands, and
//! the decisions of one iteration.
//!
//! An iteration first takes in every event that was polled, then does one
//! of three things: it leaves the loop, it carries out the oldest queued
//! command, or, with nothing queued, it is a render tick that turns the cube
//! by the time since the last render tick and accounts for the frame.

use vstd::prelude::*;
use crate::camera::{Projection, ViewTransform};
use crate::input::{
    binding_of, command_for, command_of, key_binding, quits, Command, InputEvent, Key, KeyAction,
};
use crate::scene::{lemma_update_wraps, Axis, Direction, SceneModel, SceneState};
use crate::timing::{FpsReport, FrameTiming, TimingModel, REPORT_INTERVAL_MS};
use crate::viewport::lemma_fitted_keeps_shape;

verus! {

/// Whether the loop goes on.
#[derive(Clone, Copy, Debug, PartialEq, Eq, Structural)]
pub enum LoopState {
    Running,
    /// The loop was asked to end. Nothing changes any more.
    Closing,
}

/// What there is to draw in one frame.
#[derive(Clone, Copy, Debug, PartialEq, Eq, Structural)]
pub struct Frame {
    pub projection: Projection,
    pub view: ViewTransform,
    /// The throughput to print, where a report is due.
    pub report: Option<FpsReport>,
}

/// What the caller has to do after one iteration.
#[derive(Clone, Copy, Debug, PartialEq, Eq, Structural)]
pub enum Step {
    /// Leave the loop.
    Quit,
    /// This command was carried out; poll again.
    Input(Command),
    /// Draw and present this frame, and print its report if there is one.
    Render(Frame),
}

/// What a renderer is, as mathematics.
pub struct RendererModel {
    pub scene: SceneModel,
    pub timing: TimingModel,
    /// Commands that wait, oldest first.
    pub commands: Seq<Command>,
    pub state: LoopState,
}

impl RendererModel {
    /// Scene and timing are well formed.
    pub open spec fn wf(self) -> bool {
        &&& self.scene.wf()
        &&& self.timing.wf()
    }

    /// The renderer at the start of the loop.
    pub open spec fn initial(report_interval: int) -> RendererModel {
        RendererModel {
            scene: SceneModel::initial(),
            timing: TimingModel::initial(report_interval),
            commands: Seq::empty(),
            state: LoopState::Running,
        }
    }

    /// The renderer after one event was taken in. A close request ends the
    /// loop, a press or a release of a key is queued, a repeat is dropped,
    /// and a new window size replaces the viewport at once. Once the loop is
    /// closing, events change nothing.
    pub open spec fn handle_event(self, event: InputEvent) -> RendererModel {
        if self.state == LoopState::Closing {
            self
        } else {
            match event {
                InputEvent::Close => RendererModel { state: LoopState::Closing, ..self },
                InputEvent::Key(key, action) => match command_of(key, action) {
                    Some(command) => RendererModel {
                        commands: self.commands.push(command),
                        ..self
                    },
                    None => self,
                },
                InputEvent::Resize(width, height) => RendererModel {
                    scene: self.scene.recompute_projection(width, height),
                    ..self
                },
                InputEvent::Other => self,
            }
        }
    }

    /// The renderer after a batch of events was taken in, in order.
    pub open spec fn handle_events(self, events: Seq<InputEvent>) -> RendererModel
        decreases events.len(),
    {
        if events.len() == 0 {
            self
        } else {
            self.handle_events(events.drop_last()).handle_event(events.last())
        }
    }

    /// The renderer after one command was carried out: a press of escape
    /// ends the loop, an arrow key sets its spin intent to whether it is
    /// now held, and anything else changes nothing.
    pub open spec fn apply_command(self, command: Command) -> RendererModel {
        if quits(command) {
            RendererModel { state: LoopState::Closing, ..self }
        } else {
            match binding_of(command.key) {
                Some((axis, direction)) => RendererModel {
                    scene: self.scene.set_spin(axis, direction, command.pressed),
                    ..self
                },
                None => self,
            }
        }
    }

    /// Whether the next step draws a frame: the loop runs and no command
    /// waits.
    pub open spec fn renders_next(self) -> bool {
        self.state == LoopState::Running && self.commands.len() == 0
    }

    /// Whether a step can be taken at `game_time`: where it would draw a
    /// frame, the clock has not run backwards since the last one and the
    /// frame can be recorded.
    pub open spec fn can_step(self, game_time: int) -> bool {
        self.renders_next() ==> self.timing.can_measure(game_time) && self.timing.can_record(
            game_time,
        )
    }

    /// The renderer after the step taken at `game_time`. With a command
    /// waiting, the oldest one leaves the queue and is carried out, so
    /// that key transitions take effect in the order they came. With none,
    /// the cube turns by the time since the last frame and the frame is
    /// recorded.
    pub open spec fn step(self, game_time: int) -> RendererModel {
        if self.state == LoopState::Closing {
            self
        } else if self.commands.len() == 0 {
            RendererModel {
                scene: self.scene.update(self.timing.frame_time(game_time)),
                timing: self.timing.record_frame(game_time),
                ..self
            }
        } else {
            RendererModel { commands: self.commands.drop_first(), ..self }.apply_command(
                self.commands.first(),
            )
        }
    }

    /// What the step taken at `game_time` asks of the caller.
    pub open spec fn step_result(self, game_time: int) -> Step {
        if self.state == LoopState::Closing {
            Step::Quit
        } else if self.commands.len() == 0 {
            Step::Render(
                Frame {
                    projection: self.step(game_time).scene.projection(),
                    view: self.step(game_time).scene.view_transform(),
                    report: self.timing.report(game_time),
                },
            )
        } else if quits(self.commands.first()) {
            Step::Quit
        } else {
            Step::Input(self.commands.first())
        }
    }
}

/// Whether an event is a key repeat.
pub open spec fn is_repeat(event: InputEvent) -> bool {
    event matches InputEvent::Key(_, action) && action == KeyAction::Repeat
}

/// A batch of events with its key repeats taken out.
pub open spec fn without_repeats(events: Seq<InputEvent>) -> Seq<InputEvent>
    decreases events.len(),
{
    if events.len() == 0 {
        events
    } else if is_repeat(events.last()) {
        without_repeats(events.drop_last())
    } else {
        without_repeats(events.drop_last()).push(events.last())
    }
}

/// A key repeat changes nothing at all: no intent, no angle, no queue.
pub proof fn lemma_repeat_changes_nothing(r: RendererModel, key: Key)
    ensures
        r.handle_event(InputEvent::Key(key, KeyAction::Repeat)) == r,
{
}

/// Taking in events never touches a spin intent, an angle or the timing:
/// events only queue commands, replace the viewport or end the loop.
pub proof fn lemma_events_keep_intents(r: RendererModel, events: Seq<InputEvent>)
    ensures
        r.handle_events(events).scene == (SceneModel {
            viewport: r.handle_events(events).scene.viewport,
            ..r.scene
        }),
        r.handle_events(events).timing == r.timing,
    decreases events.len(),
{
    if events.len() > 0 {
        lemma_events_keep_intents(r, events.drop_last());
    }
}

/// A batch of events has the same effect with or without its key repeats:
/// repeats queue no command, so they can never reach a spin intent.
pub proof fn lemma_repeats_are_dropped(r: RendererModel, events: Seq<InputEvent>)
    ensures
        r.handle_events(events) == r.handle_events(without_repeats(events)),
    decreases events.len(),
{
    if events.len() > 0 {
        let front = events.drop_last();
        lemma_repeats_are_dropped(r, front);
        if !is_repeat(events.last()) {
            let kept = without_repeats(front).push(events.last());
            assert(kept.drop_last() =~= without_repeats(front));
            assert(kept.last() == events.last());
        }
    }
}

/// A step changes a spin intent only by carrying out the oldest queued
/// press or release, which is of the key bound to it, and then sets it to
/// whether the key is now held. A render tick changes no intent.
pub proof fn lemma_step_changes_intent_by_command(
    r: RendererModel,
    game_time: int,
    axis: Axis,
    direction: Direction,
)
    requires
        r.step(game_time).scene.spin(axis, direction) != r.scene.spin(axis, direction),
    ensures
        r.state == LoopState::Running,
        r.commands.len() > 0,
        binding_of(r.commands.first().key) == Some((axis, direction)),
        r.step(game_time).scene.spin(axis, direction) == r.commands.first().pressed,
{
}

/// Key transitions take effect in the order they came: a press and then a
/// release of an arrow key, taken in together with nothing queued before
/// them, leave the key's intent cleared once both were carried out, and a
/// release and then a press leave it set.
pub proof fn lemma_transitions_keep_their_order(
    r: RendererModel,
    key: Key,
    first_pressed: bool,
    t1: int,
    t2: int,
)
    requires
        r.state == LoopState::Running,
        r.commands.len() == 0,
        binding_of(key) is Some,
    ensures
        ({
            let first = InputEvent::Key(
                key,
                if first_pressed {
                    KeyAction::Press
                } else {
                    KeyAction::Release
                },
            );
            let second = InputEvent::Key(
                key,
                if first_pressed {
                    KeyAction::Release
                } else {
                    KeyAction::Press
                },
            );
            let (axis, direction) = binding_of(key)->0;
            let after = r.handle_event(first).handle_event(second).step(t1).step(t2);
            &&& after.scene.spin(axis, direction) == !first_pressed
            &&& after.commands.len() == 0
            &&& after.state == LoopState::Running
        }),
{
    let first = InputEvent::Key(
        key,
        if first_pressed {
            KeyAction::Press
        } else {
            KeyAction::Release
        },
    );
    let second = InputEvent::Key(
        key,
        if first_pressed {
            KeyAction::Release
        } else {
            KeyAction::Press
        },
    );
    let queued = r.handle_event(first).handle_event(second);
    assert(queued.commands.len() == 2);
    assert(queued.commands.first() == (Command { key, pressed: first_pressed }));
    let once = queued.step(t1);
    assert(once.commands =~= seq![Command { key, pressed: !first_pressed }]);
    assert(once.commands.first() == (Command { key, pressed: !first_pressed }));
    assert(once.step(t2).commands =~= Seq::<Command>::empty());
}

/// Whether `command` is what `event` queues: the event is a press or a
/// release of the command's key, and no repeat.
pub open spec fn stems_from(command: Command, event: InputEvent) -> bool {
    event matches InputEvent::Key(key, action) && action != KeyAction::Repeat && command_of(
        key,
        action,
    ) == Some(command)
}

/// Every command in the queue after a batch of events was either there
/// before or stems from a press or a release in the batch.
pub proof fn lemma_queued_commands_are_transitions(
    r: RendererModel,
    events: Seq<InputEvent>,
    i: int,
)
    requires
        0 <= i < r.handle_events(events).commands.len(),
    ensures
        r.commands.len() <= r.handle_events(events).commands.len(),
        i < r.commands.len() ==> r.handle_events(events).commands[i] == r.commands[i],
        i >= r.commands.len() ==> exists|j: int|
            0 <= j < events.len() && stems_from(
                r.handle_events(events).commands[i],
                #[trigger] events[j],
            ),
    decreases events.len(),
{
    if events.len() > 0 {
        let front = events.drop_last();
        let before = r.handle_events(front);
        let after = r.handle_events(events);
        lemma_queue_only_grows(r, front);
        if i < before.commands.len() {
            lemma_queued_commands_are_transitions(r, front, i);
            assert(after.commands[i] == before.commands[i]);
            if i >= r.commands.len() {
                let j = choose|j: int|
                    0 <= j < front.len() && stems_from(before.commands[i], #[trigger] front[j]);
                assert(events[j] == front[j]);
            }
        } else {
            let j = events.len() - 1;
            assert(stems_from(after.commands[i], events[j]));
        }
    }
}

proof fn lemma_queue_only_grows(r: RendererModel, events: Seq<InputEvent>)
    ensures
        r.commands.len() <= r.handle_events(events).commands.len(),
    decreases events.len(),
{
    if events.len() > 0 {
        lemma_queue_only_grows(r, events.drop_last());
    }
}

/// Closing is final: once the loop is closing, no batch of events and no
/// step changes anything, and every step says to quit.
pub proof fn lemma_closing_is_final(r: RendererModel, events: Seq<InputEvent>, game_time: int)
    requires
        r.state == LoopState::Closing,
    ensures
        r.handle_events(events) == r,
        r.step(game_time) == r,
        r.step_result(game_time) == Step::Quit,
        r.handle_events(events).step(game_time) == r,
    decreases events.len(),
{
    if events.len() > 0 {
        lemma_closing_is_final(r, events.drop_last(), game_time);
    }
}

/// A step says to quit exactly when it leaves the loop closing.
pub proof fn lemma_quit_means_closing(r: RendererModel, game_time: int)
    ensures
        r.step_result(game_time) == Step::Quit <==> r.step(game_time).state == LoopState::Closing,
{
}

/// One iteration keeps a well-formed renderer well formed, provided its
/// step can be taken.
pub proof fn lemma_tick_keeps_wf(r: RendererModel, events: Seq<InputEvent>, game_time: int)
    requires
        r.wf(),
        0 <= game_time <= u128::MAX,
        r.handle_events(events).can_step(game_time),
    ensures
        r.handle_events(events).wf(),
        r.handle_events(events).step(game_time).wf(),
{
    lemma_events_keep_wf(r, events);
    let taken = r.handle_events(events);
    if taken.renders_next() {
        lemma_update_wraps(taken.scene, taken.timing.frame_time(game_time));
    }
}

proof fn lemma_events_keep_wf(r: RendererModel, events: Seq<InputEvent>)
    requires
        r.wf(),
    ensures
        r.handle_events(events).wf(),
    decreases events.len(),
{
    if events.len() > 0 {
        lemma_events_keep_wf(r, events.drop_last());
        match events.last() {
            InputEvent::Resize(width, height) => {
                if width > 0 && height > 0 {
                    lemma_fitted_keeps_shape(width, height);
                }
            },
            _ => {},
        }
    }
}

/// Scene, timing and queued commands of the running demo.
pub struct Renderer {
    scene: SceneState,
    timing: FrameTiming,
    commands: Vec<Command>,
    state: LoopState,
}

impl View for Renderer {
    type V = RendererModel;

    closed spec fn view(&self) -> RendererModel {
        RendererModel {
            scene: self.scene@,
            timing: self.timing@,
            commands: self.commands@,
            state: self.state,
        }
    }
}

impl Renderer {
    /// A renderer at the start of the loop: the cube at rest, no frame
    /// drawn, nothing queued, reporting once a second.
    pub fn new() -> (r: Renderer)
        ensures
            r@ == RendererModel::initial(REPORT_INTERVAL_MS as int),
            r@.wf(),
    {
        Renderer::with_report_interval(REPORT_INTERVAL_MS)
    }

    /// A renderer at the start of the loop that reports whenever more than
    /// `report_interval` milliseconds have passed.
    pub fn with_report_interval(report_interval: u128) -> (r: Renderer)
        ensures
            r@ == RendererModel::initial(report_interval as int),
            r@.wf(),
    {
        Renderer {
            scene: SceneState::new(),
            timing: FrameTiming::new(report_interval),
            commands: Vec::new(),
            state: LoopState::Running,
        }
    }

    /// Sets the intent to spin left.
    pub fn set_spin_h_neg(&mut self, on: bool)
        ensures
            final(self)@ == (RendererModel {
                scene: old(self)@.scene.set_spin(Axis::Horizontal, Direction::Negative, on),
                ..old(self)@
            }),
            final(self)@.wf(),
    {
        proof {
            use_type_invariant(&self.scene);
            use_type_invariant(&self.timing);
        }
        self.scene.set_spin(Axis::Horizontal, Direction::Negative, on);
    }

    /// Sets the intent to spin right.
    pub fn set_spin_h_pos(&mut self, on: bool)
        ensures
            final(self)@ == (RendererModel {
                scene: old(self)@.scene.set_spin(Axis::Horizontal, Direction::Positive, on),
                ..old(self)@
            }),
            final(self)@.wf(),
    {
        proof {
            use_type_invariant(&self.scene);
            use_type_invariant(&self.timing);
        }
        self.scene.set_spin(Axis::Horizontal, Direction::Positive, on);
    }

    /// Sets the intent to spin up.
    pub fn set_spin_v_neg(&mut self, on: bool)
        ensures
            final(self)@ == (RendererModel {
                scene: old(self)@.scene.set_spin(Axis::Vertical, Direction::Negative, on),
                ..old(self)@
            }),
            final(self)@.wf(),
    {
        proof {
            use_type_invariant(&self.scene);
            use_type_invariant(&self.timing);
        }
        self.scene.set_spin(Axis::Vertical, Direction::Negative, on);
    }

    /// Sets the intent to spin down.
    pub fn set_spin_v_pos(&mut self, on: bool)
        ensures
            final(self)@ == (RendererModel {
                scene: old(self)@.scene.set_spin(Axis::Vertical, Direction::Positive, on),
                ..old(self)@
            }),
            final(self)@.wf(),
    {
        proof {
            use_type_invariant(&self.scene);
            use_type_invariant(&self.timing);
        }
        self.scene.set_spin(Axis::Vertical, Direction::Positive, on);
    }

    /// Takes the viewport of a `width` by `height` window; one without area
    /// is ignored.
    pub fn refresh_viewport_size(&mut self, width: u32, height: u32)
        ensures
            final(self)@ == (RendererModel {
                scene: old(self)@.scene.recompute_projection(width, height),
                ..old(self)@
            }),
            final(self)@.wf(),
    {
        proof {
            use_type_invariant(&self.scene);
            use_type_invariant(&self.timing);
        }
        self.scene.recompute_projection(width, height);
    }

    /// Turns the cube by `frame_time` milliseconds. The time of day plays
    /// no part.
    pub fn update(&mut self, game_time: u128, frame_time: u128)
        ensures
            final(self)@ == (RendererModel {
                scene: old(self)@.scene.update(frame_time as int),
                ..old(self)@
            }),
            final(self)@.wf(),
    {
        proof {
            use_type_invariant(&self.scene);
            use_type_invariant(&self.timing);
        }
        self.scene.update(frame_time);
    }

    /// Accounts for the frame drawn at `game_time` and returns the report
    /// that is due, if one is. The time the frame took plays no part.
    pub fn draw(&mut self, game_time: u128, frame_time: u128) -> (report: Option<FpsReport>)
        requires
            old(self)@.timing.can_record(game_time as int),
        ensures
            final(self)@ == (RendererModel {
                timing: old(self)@.timing.record_frame(game_time as int),
                ..old(self)@
            }),
            report == old(self)@.timing.report(game_time as int),
            final(self)@.wf(),
    {
        proof {
            use_type_invariant(&self.scene);
            use_type_invariant(&self.timing);
        }
        self.timing.record_frame(game_time)
    }

    /// The scene.
    pub fn scene(&self) -> (scene: &SceneState)
        ensures
            scene@ == self@.scene,
            scene@.wf(),
    {
        proof {
            use_type_invariant(&self.scene);
        }
        &self.scene
    }

    /// The frame timing.
    pub fn timing(&self) -> (timing: &FrameTiming)
        ensures
            timing@ == self@.timing,
            timing@.wf(),
    {
        proof {
            use_type_invariant(&self.timing);
        }
        &self.timing
    }

    /// Whether the loop goes on.
    pub fn state(&self) -> (state: LoopState)
        ensures
            state == self@.state,
    {
        self.state
    }

    /// How many commands wait.
    pub fn pending(&self) -> (n: usize)
        ensures
            n == self@.commands.len(),
    {
        self.commands.len()
    }

    /// Whether a step can be taken at `game_time`: it can unless it would
    /// draw a frame while the clock has run backwards or the frame counter
    /// is full.
    pub fn can_step(&self, game_time: u128) -> (ok: bool)
        ensures
            ok == self@.can_step(game_time as int),
    {
        let renders = match self.state {
            LoopState::Running => self.commands.len() == 0,
            LoopState::Closing => false,
        };
        !renders || (self.timing.can_measure(game_time) && self.timing.can_record(game_time))
    }

    /// Takes in one event.
    pub fn handle_event(&mut self, event: InputEvent)
        ensures
            final(self)@ == old(self)@.handle_event(event),
            final(self)@.wf(),
    {
        proof {
            use_type_invariant(&self.scene);
            use_type_invariant(&self.timing);
        }
        match self.state {
            LoopState::Closing => {},
            LoopState::Running => match event {
                InputEvent::Close => {
                    self.state = LoopState::Closing;
                },
                InputEvent::Key(key, action) => match command_for(key, action) {
                    Some(command) => {
                        self.commands.push(command);
                    },
                    None => {},
                },
                InputEvent::Resize(width, height) => {
                    self.scene.recompute_projection(width, height);
                },
                InputEvent::Other => {},
            },
        }
    }

    /// Takes in a batch of events, in order.
    pub fn handle_events(&mut self, events: &[InputEvent])
        ensures
            final(self)@ == old(self)@.handle_events(events@),
            final(self)@.wf(),
    {
        proof {
            use_type_invariant(&self.scene);
            use_type_invariant(&self.timing);
        }
        let mut i: usize = 0;
        while i < events.len()
            invariant
                i <= events.len(),
                self@ == old(self)@.handle_events(events@.take(i as int)),
                self@.wf(),
            decreases events.len() - i,
        {
            proof {
                let next = events@.take(i + 1);
                assert(next.drop_last() =~= events@.take(i as int));
                assert(next.last() == events@[i as int]);
            }
            self.handle_event(events[i]);
            i = i + 1;
        }
        proof {
            assert(events@.take(i as int) =~= events@);
        }
    }

    /// Carries out one command.
    fn apply_command(&mut self, command: Command)
        ensures
            final(self)@ == old(self)@.apply_command(command),
            final(self)@.wf(),
    {
        proof {
            use_type_invariant(&self.scene);
            use_type_invariant(&self.timing);
        }
        match command.key {
            Key::Escape => {
                if command.pressed {
                    self.state = LoopState::Closing;
                }
            },
            key => match key_binding(key) {
                Some((axis, direction)) => {
                    self.scene.set_spin(axis, direction, command.pressed);
                },
                None => {},
            },
        }
    }

    /// Takes the step that is due at `game_time` milliseconds since the
    /// loop started, and says what the caller has to do.
    pub fn step(&mut self, game_time: u128) -> (step: Step)
        requires
            old(self)@.can_step(game_time as int),
        ensures
            final(self)@ == old(self)@.step(game_time as int),
            step == old(self)@.step_result(game_time as int),
            final(self)@.wf(),
    {
        proof {
            use_type_invariant(&self.scene);
            use_type_invariant(&self.timing);
        }
        match self.state {
            LoopState::Closing => Step::Quit,
            LoopState::Running => if self.commands.len() == 0 {
                let frame_time: u128 = self.timing.frame_time(game_time);
                self.update(game_time, frame_time);
                let report = self.draw(game_time, frame_time);
                Step::Render(
                    Frame {
                        projection: self.scene.projection(),
                        view: self.scene.view_transform(),
                        report,
                    },
                )
            } else {
                let command = self.commands.remove(0);
                assert(self.commands@ =~= old(self)@.commands.drop_first());
                self.apply_command(command);
                match self.state {
                    LoopState::Closing => Step::Quit,
                    LoopState::Running => Step::Input(command),
                }
            },
        }
    }

    /// One iteration of the loop: takes in the events that were polled,
    /// then takes the step that is due at `game_time`.
    pub fn tick(&mut self, events: &[InputEvent], game_time: u128) -> (step: Step)
        requires
            old(self)@.handle_events(events@).can_step(game_time as int),
        ensures
            final(self)@ == old(self)@.handle_events(events@).step(game_time as int),
            step == old(self)@.handle_events(events@).step_result(game_time as int),
            final(self)@.wf(),
    {
        proof {
            use_type_invariant(&self.scene);
            use_type_invariant(&self.timing);
        }
        self.handle_events(events);
        self.step(game_time)
    }
}

} // verus!
