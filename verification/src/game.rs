//! Single-owner dispatch: work for a piece of state is queued, and the one
//! owner of that state carries it out, one unit at a time, in the order of
//! arrival.
//!
//! Nothing here waits or sends. A caller hands in a unit of work together
//! with a handle `R` for the channel on which the answer is to go back; the
//! owner's step hands out the answer together with that handle, and whoever
//! drives the owner delivers it.

use std::collections::{HashMap, VecDeque};
use vstd::prelude::*;

use crate::entity::Entity;
use crate::instance::{effect, Instance};
use crate::messages::{Command, Outcome, OutcomeView, Reply, ReplyView, Request};

verus! {

broadcast use vstd::std_specs::hash::group_hash_axioms;

/// The units of work that wait for an owner, oldest first, each with the
/// handle for its answer. The view of a queue is that sequence.
pub struct Mailbox<R, W> {
    waiting: VecDeque<(R, W)>,
}

impl<R, W> View for Mailbox<R, W> {
    type V = Seq<(R, W)>;

    closed spec fn view(&self) -> Seq<(R, W)> {
        self.waiting@
    }
}

impl<R, W> Mailbox<R, W> {
    /// An empty queue.
    pub fn new() -> (mailbox: Self)
        ensures
            mailbox@ == Seq::<(R, W)>::empty(),
    {
        Mailbox { waiting: VecDeque::new() }
    }

    /// Queues `work` behind everything that waits already.
    pub fn submit(&mut self, reply: R, work: W)
        ensures
            final(self)@ == old(self)@.push((reply, work)),
    {
        self.waiting.push_back((reply, work));
    }

    /// Takes the unit of work that has waited longest off the queue.
    pub fn take(&mut self) -> (next: Option<(R, W)>)
        ensures
            match next {
                Some(entry) => {
                    &&& old(self)@.len() > 0
                    &&& entry == old(self)@[0]
                    &&& final(self)@ == old(self)@.drop_first()
                },
                None => old(self)@.len() == 0 && final(self)@ == old(self)@,
            },
    {
        self.waiting.pop_front()
    }

    /// How many units of work wait.
    pub fn len(&self) -> (len: usize)
        ensures
            len == self@.len(),
    {
        self.waiting.len()
    }
}

/// What the owner of one game instance holds, as plain values: the
/// instance's entities, and the work that waits for it.
#[verifier::ext_equal]
pub struct ExecutorView<R> {
    pub entities: Seq<Entity>,
    pub pending: Seq<(R, Command)>,
}

impl<R> ExecutorView<R> {
    /// The owner with one more unit of work queued.
    pub open spec fn submit(self, reply: R, command: Command) -> Self {
        ExecutorView { entities: self.entities, pending: self.pending.push((reply, command)) }
    }

    /// The owner after it has carried out the oldest unit of work that
    /// waits; the owner as it is where none waits.
    pub open spec fn step(self) -> Self {
        if self.pending.len() == 0 {
            self
        } else {
            ExecutorView {
                entities: effect(self.entities, self.pending[0].1@).0,
                pending: self.pending.drop_first(),
            }
        }
    }

    /// The answer that the next step gives, and the handle it goes back on;
    /// none where no work waits.
    pub open spec fn answer(self) -> Option<(R, OutcomeView)> {
        if self.pending.len() == 0 {
            None
        } else {
            Some((self.pending[0].0, effect(self.entities, self.pending[0].1@).1))
        }
    }

    /// The owner after `count` steps.
    pub open spec fn steps(self, count: nat) -> Self
        decreases count,
    {
        if count == 0 {
            self
        } else {
            self.step().steps((count - 1) as nat)
        }
    }
}

/// The owner of one game instance: the only one to touch the instance's
/// state, with the queue of the work that was asked of it.
pub struct Executor<R> {
    instance: Instance,
    inbox: Mailbox<R, Command>,
}

impl<R> View for Executor<R> {
    type V = ExecutorView<R>;

    closed spec fn view(&self) -> ExecutorView<R> {
        ExecutorView { entities: self.instance@, pending: self.inbox@ }
    }
}

impl<R> Executor<R> {
    /// The owner of `instance`, with no work waiting.
    pub fn new(instance: Instance) -> (executor: Self)
        ensures
            executor@ == (ExecutorView::<R> { entities: instance@, pending: Seq::empty() }),
    {
        Executor { instance, inbox: Mailbox::new() }
    }

    /// The instance's state, to be read.
    pub fn instance(&self) -> (instance: &Instance)
        ensures
            instance@ == self@.entities,
    {
        &self.instance
    }

    /// The instance's state, to be changed by the simulation itself. The
    /// work that waits is not touched.
    pub fn instance_mut(&mut self) -> (instance: &mut Instance)
        ensures
            instance@ == old(self)@.entities,
            final(self)@ == (ExecutorView {
                entities: final(instance)@,
                pending: old(self)@.pending,
            }),
    {
        &mut self.instance
    }

    /// Queues a unit of work behind everything that waits already.
    pub fn submit(&mut self, reply: R, command: Command)
        ensures
            final(self)@ == old(self)@.submit(reply, command),
    {
        self.inbox.submit(reply, command);
    }

    /// Carries out, to its end, the unit of work that has waited longest,
    /// and hands out its answer with the handle it goes back on. Where no
    /// work waits, nothing happens.
    pub fn run_next(&mut self) -> (answer: Option<(R, Outcome)>)
        ensures
            final(self)@ == old(self)@.step(),
            match old(self)@.answer() {
                Some((reply, outcome)) => answer matches Some((r, o)) && r == reply && o@
                    == outcome,
                None => answer is None,
            },
    {
        match self.inbox.take() {
            Some((reply, command)) => {
                let outcome = self.instance.execute(command);
                Some((reply, outcome))
            },
            None => None,
        }
    }
}

/// What the owner of the game holds, as plain values: the owners of the live
/// instances by number, the work that waits for the game itself, and whether
/// the game has begun to shut down.
#[verifier::ext_equal]
pub struct GameView<R> {
    pub instances: Map<u64, ExecutorView<R>>,
    pub pending: Seq<(R, Request)>,
    pub shutting_down: bool,
}

/// What one step of the game's owner came to.
pub enum Step<R> {
    /// No work waited.
    Idle,
    /// The unit of work is done: this answer goes back on this handle.
    Replied(R, Reply),
    /// The unit of work was handed on to the instance with this number,
    /// whose owner will answer it.
    Forwarded(u64),
}

/// What a [`Step`] holds, as plain values.
#[verifier::ext_equal]
pub enum StepView<R> {
    Idle,
    Replied(R, ReplyView),
    Forwarded(u64),
}

impl<R> View for Step<R> {
    type V = StepView<R>;

    open spec fn view(&self) -> StepView<R> {
        match *self {
            Step::Idle => StepView::Idle,
            Step::Replied(reply, answer) => StepView::Replied(reply, answer@),
            Step::Forwarded(instance) => StepView::Forwarded(instance),
        }
    }
}

impl<R> GameView<R> {
    /// The game with one more unit of work queued.
    pub open spec fn submit(self, reply: R, request: Request) -> Self {
        GameView { pending: self.pending.push((reply, request)), ..self }
    }

    /// The game after its owner has carried out the oldest unit of work that
    /// waits; the game as it is where none waits.
    ///
    /// Work for an instance is looked up by the instance's number. Where an
    /// instance has the number, the work joins the end of that instance's
    /// queue; where none has, nothing but the game's own queue changes.
    pub open spec fn step(self) -> Self {
        if self.pending.len() == 0 {
            self
        } else {
            let rest = self.pending.drop_first();
            match self.pending[0].1 {
                Request::Shutdown => GameView { pending: rest, shutting_down: true, ..self },
                Request::ForInstance { instance, command } => if self.instances.contains_key(
                    instance,
                ) {
                    GameView {
                        pending: rest,
                        instances: self.instances.insert(
                            instance,
                            self.instances[instance].submit(self.pending[0].0, command),
                        ),
                        ..self
                    }
                } else {
                    GameView { pending: rest, ..self }
                },
            }
        }
    }

    /// What the next step of the game's owner comes to.
    pub open spec fn outcome(self) -> StepView<R> {
        if self.pending.len() == 0 {
            StepView::Idle
        } else {
            match self.pending[0].1 {
                Request::Shutdown => StepView::Replied(self.pending[0].0, ReplyView::Done),
                Request::ForInstance { instance, command } => if self.instances.contains_key(
                    instance,
                ) {
                    StepView::Forwarded(instance)
                } else {
                    StepView::Replied(self.pending[0].0, ReplyView::InstanceNotFound)
                },
            }
        }
    }

    /// The game after the owner of the instance `instance` has taken a step;
    /// the game as it is where no instance has the number.
    pub open spec fn step_instance(self, instance: u64) -> Self {
        if self.instances.contains_key(instance) {
            GameView {
                instances: self.instances.insert(instance, self.instances[instance].step()),
                ..self
            }
        } else {
            self
        }
    }

    /// The answer that the next step of the owner of the instance `instance`
    /// gives, and the handle it goes back on.
    pub open spec fn instance_answer(self, instance: u64) -> Option<(R, ReplyView)> {
        if self.instances.contains_key(instance) {
            match self.instances[instance].answer() {
                Some((reply, outcome)) => Some((reply, ReplyView::Instance(outcome))),
                None => None,
            }
        } else {
            None
        }
    }

    /// The game after `count` steps of its owner.
    pub open spec fn steps(self, count: nat) -> Self
        decreases count,
    {
        if count == 0 {
            self
        } else {
            self.step().steps((count - 1) as nat)
        }
    }
}

/// The owner of the game as a whole: it keeps the owners of the live
/// instances by number, and the queue of the work that was asked of the game.
pub struct Game<R> {
    instances: HashMap<u64, Executor<R>>,
    inbox: Mailbox<R, Request>,
    shutting_down: bool,
}

impl<R> View for Game<R> {
    type V = GameView<R>;

    closed spec fn view(&self) -> GameView<R> {
        GameView {
            instances: self.instances@.map_values(|executor: Executor<R>| executor@),
            pending: self.inbox@,
            shutting_down: self.shutting_down,
        }
    }
}

impl<R> Game<R> {
    /// A game without instances, with no work waiting.
    pub fn new() -> (game: Self)
        ensures
            game@ == (GameView::<R> {
                instances: Map::empty(),
                pending: Seq::empty(),
                shutting_down: false,
            }),
    {
        let game = Game { instances: HashMap::new(), inbox: Mailbox::new(), shutting_down: false };
        assert(game@.instances =~= Map::empty());
        game
    }

    /// Whether the game has begun to shut down.
    pub fn is_shutting_down(&self) -> (shutting_down: bool)
        ensures
            shutting_down == self@.shutting_down,
    {
        self.shutting_down
    }

    /// Whether a live instance has the number `instance`.
    pub fn has_instance(&self, instance: u64) -> (live: bool)
        ensures
            live == self@.instances.contains_key(instance),
    {
        self.instances.contains_key(&instance)
    }

    /// The owner of the instance `instance`, to be read.
    pub fn instance(&self, instance: u64) -> (found: Option<&Executor<R>>)
        ensures
            match found {
                Some(executor) => self@.instances.contains_key(instance) && executor@
                    == self@.instances[instance],
                None => !self@.instances.contains_key(instance),
            },
    {
        self.instances.get(&instance)
    }

    /// Makes `instance` a live instance under the number `number`, with no
    /// work waiting for it. Where the number is taken, nothing changes and
    /// the instance is handed back.
    pub fn add_instance(&mut self, number: u64, instance: Instance) -> (refused: Option<Instance>)
        ensures
            if old(self)@.instances.contains_key(number) {
                &&& refused == Some(instance)
                &&& final(self)@ == old(self)@
            } else {
                &&& refused is None
                &&& final(self)@ == (GameView {
                    instances: old(self)@.instances.insert(
                        number,
                        ExecutorView { entities: instance@, pending: Seq::empty() },
                    ),
                    ..old(self)@
                })
            },
    {
        if self.instances.contains_key(&number) {
            return Some(instance);
        }
        self.instances.insert(number, Executor::new(instance));
        assert(self@.instances =~= old(self)@.instances.insert(
            number,
            ExecutorView { entities: instance@, pending: Seq::empty() },
        ));
        None
    }

    /// Takes the instance `number` out of the game and hands its owner over,
    /// with the work that still waited for it.
    pub fn remove_instance(&mut self, number: u64) -> (removed: Option<Executor<R>>)
        ensures
            final(self)@ == (GameView {
                instances: old(self)@.instances.remove(number),
                ..old(self)@
            }),
            match removed {
                Some(executor) => {
                    &&& old(self)@.instances.contains_key(number)
                    &&& executor@ == old(self)@.instances[number]
                },
                None => !old(self)@.instances.contains_key(number),
            },
    {
        let removed = self.instances.remove(&number);
        assert(self@.instances =~= old(self)@.instances.remove(number));
        removed
    }

    /// Queues a unit of work behind everything that waits already.
    pub fn submit(&mut self, reply: R, request: Request)
        ensures
            final(self)@ == old(self)@.submit(reply, request),
    {
        self.inbox.submit(reply, request);
    }

    /// Carries out, to its end, the unit of work that has waited longest.
    ///
    /// Work for the game itself is answered at once. Work for an instance is
    /// handed on to the instance's queue, with the handle for its answer, and
    /// answered by that instance's owner; where no instance has the number,
    /// it is answered at once with [`Reply::InstanceNotFound`], and no
    /// instance is touched.
    pub fn run_next(&mut self) -> (step: Step<R>)
        ensures
            final(self)@ == old(self)@.step(),
            step@ == old(self)@.outcome(),
    {
        match self.inbox.take() {
            None => Step::Idle,
            Some((reply, Request::Shutdown)) => {
                self.shutting_down = true;
                Step::Replied(reply, Reply::Done)
            },
            Some((reply, Request::ForInstance { instance, command })) => {
                match self.instances.remove(&instance) {
                    None => {
                        assert(self@.instances =~= old(self)@.instances);
                        Step::Replied(reply, Reply::InstanceNotFound)
                    },
                    Some(mut executor) => {
                        executor.submit(reply, command);
                        self.instances.insert(instance, executor);
                        assert(self@.instances =~= old(self)@.instances.insert(
                            instance,
                            old(self)@.instances[instance].submit(reply, command),
                        ));
                        Step::Forwarded(instance)
                    },
                }
            },
        }
    }

    /// Lets the owner of the instance `instance` carry out, to its end, the
    /// unit of work that has waited longest for it, and hands out the answer
    /// with the handle it goes back on. Where no instance has the number, or
    /// no work waits for it, nothing happens.
    pub fn run_instance_next(&mut self, instance: u64) -> (answer: Option<(R, Reply)>)
        ensures
            final(self)@ == old(self)@.step_instance(instance),
            match old(self)@.instance_answer(instance) {
                Some((reply, expected)) => answer matches Some((r, a)) && r == reply && a@
                    == expected,
                None => answer is None,
            },
    {
        match self.instances.remove(&instance) {
            None => {
                assert(self@.instances =~= old(self)@.instances);
                None
            },
            Some(mut executor) => {
                let answer = executor.run_next();
                self.instances.insert(instance, executor);
                assert(self@.instances =~= old(self)@.instances.insert(
                    instance,
                    old(self)@.instances[instance].step(),
                ));
                match answer {
                    Some((reply, outcome)) => Some((reply, Reply::Instance(outcome))),
                    None => None,
                }
            },
        }
    }
}

/// Work that is queued behind an owner's pending work does not change what
/// the owner does with the pending work: it waits at the end all the while.
pub proof fn lemma_executor_steps_then_submit<R>(
    owner: ExecutorView<R>,
    reply: R,
    command: Command,
    count: nat,
)
    requires
        count <= owner.pending.len(),
    ensures
        owner.submit(reply, command).steps(count) == owner.steps(count).submit(reply, command),
        owner.steps(count).pending == owner.pending.subrange(
            count as int,
            owner.pending.len() as int,
        ),
    decreases count,
{
    if count == 0 {
        assert(owner.pending.subrange(0, owner.pending.len() as int) =~= owner.pending);
    } else {
        let queued = owner.submit(reply, command);
        assert(queued.pending[0] == owner.pending[0]);
        assert(queued.pending.drop_first() =~= owner.pending.drop_first().push((reply, command)));
        assert(queued.step() == owner.step().submit(reply, command));
        lemma_executor_steps_then_submit(owner.step(), reply, command, (count - 1) as nat);
        assert(owner.step().pending.subrange(count - 1, owner.step().pending.len() as int)
            =~= owner.pending.subrange(count as int, owner.pending.len() as int));
    }
}

/// First in, first out. Of two units of work that one caller submits to an
/// owner, the first is carried out to its end before the second begins: once
/// the work that waited before them is done, both still wait; the next step
/// carries out the first and answers it; and the state that the second then
/// runs against is the state that the first has left.
pub proof fn lemma_first_in_first_out<R>(
    owner: ExecutorView<R>,
    first_reply: R,
    first: Command,
    second_reply: R,
    second: Command,
)
    ensures
        ({
            let queued = owner.submit(first_reply, first).submit(second_reply, second);
            let due = queued.steps(owner.pending.len());
            let done = due.step();
            &&& due.entities == owner.steps(owner.pending.len()).entities
            &&& due.pending == seq![(first_reply, first), (second_reply, second)]
            &&& due.answer() == Some((first_reply, effect(due.entities, first@).1))
            &&& done.entities == effect(due.entities, first@).0
            &&& done.pending == seq![(second_reply, second)]
            &&& done.answer() == Some((second_reply, effect(done.entities, second@).1))
            &&& done.step().entities == effect(done.entities, second@).0
        }),
{
    let count = owner.pending.len();
    let one = owner.submit(first_reply, first);
    lemma_executor_steps_then_submit(one, second_reply, second, count);
    lemma_executor_steps_then_submit(owner, first_reply, first, count);
    let due = one.submit(second_reply, second).steps(count);
    assert(owner.steps(count).pending =~= Seq::empty());
    assert(due.pending =~= seq![(first_reply, first), (second_reply, second)]);
    assert(due.step().pending =~= seq![(second_reply, second)]);
}

/// The game's owner never makes or ends an instance: whatever it carries
/// out, the same numbers name live instances before and after.
pub proof fn lemma_steps_keep_instances<R>(game: GameView<R>, count: nat)
    ensures
        game.steps(count).instances.dom() == game.instances.dom(),
        game.steps(count).pending.len() == if count <= game.pending.len() {
            game.pending.len() - count
        } else {
            0
        },
    decreases count,
{
    if count > 0 {
        assert(game.step().instances.dom() =~= game.instances.dom());
        lemma_steps_keep_instances(game.step(), (count - 1) as nat);
    }
}

/// Work that is queued behind the game's pending work does not change what
/// the game's owner does with the pending work.
pub proof fn lemma_game_steps_then_submit<R>(
    game: GameView<R>,
    reply: R,
    request: Request,
    count: nat,
)
    requires
        count <= game.pending.len(),
    ensures
        game.submit(reply, request).steps(count) == game.steps(count).submit(reply, request),
    decreases count,
{
    if count > 0 {
        let queued = game.submit(reply, request);
        assert(queued.pending[0] == game.pending[0]);
        assert(queued.pending.drop_first() =~= game.pending.drop_first().push((reply, request)));
        assert(queued.step() =~= game.step().submit(reply, request));
        lemma_game_steps_then_submit(game.step(), reply, request, (count - 1) as nat);
    }
}

/// First in, first out, for the game's own queue. Of two units of work that
/// one caller submits to the game, the first is carried out before the
/// second begins: once the work that waited before them is done, both still
/// wait; the next step takes up the first and leaves the second waiting.
pub proof fn lemma_game_first_in_first_out<R>(
    game: GameView<R>,
    first_reply: R,
    first: Request,
    second_reply: R,
    second: Request,
)
    ensures
        ({
            let queued = game.submit(first_reply, first).submit(second_reply, second);
            let settled = game.steps(game.pending.len());
            let due = queued.steps(game.pending.len());
            let done = due.step();
            &&& settled.pending.len() == 0
            &&& due == settled.submit(first_reply, first).submit(second_reply, second)
            &&& due.outcome() == settled.submit(first_reply, first).outcome()
            &&& done == settled.submit(first_reply, first).step().submit(second_reply, second)
            &&& done.outcome() == settled.submit(first_reply, first).step().submit(
                second_reply,
                second,
            ).outcome()
        }),
{
    let count = game.pending.len();
    let one = game.submit(first_reply, first);
    lemma_game_steps_then_submit(one, second_reply, second, count);
    lemma_game_steps_then_submit(game, first_reply, first, count);
    lemma_steps_keep_instances(game, count);
    let settled = game.steps(count);
    assert(settled.pending =~= Seq::empty());
    let due = settled.submit(first_reply, first).submit(second_reply, second);
    let alone = settled.submit(first_reply, first);
    assert(due.pending[0] == (first_reply, first));
    assert(alone.pending[0] == (first_reply, first));
    assert(alone.pending.drop_first() =~= Seq::empty());
    assert(due.pending.drop_first() =~= seq![(second_reply, second)]);
    assert(alone.step().pending.push((second_reply, second)) =~= seq![(second_reply, second)]);
    assert(due.step() =~= alone.step().submit(second_reply, second));
    assert(due.step().pending[0] == (second_reply, second));
}

/// The hop from the game to an instance keeps a caller's order: two units of
/// work that one caller submits for one live instance reach that instance's
/// queue in the order in which they were submitted, behind what the work
/// that waited before them put there.
pub proof fn lemma_hop_keeps_order<R>(
    game: GameView<R>,
    instance: u64,
    first_reply: R,
    first: Command,
    second_reply: R,
    second: Command,
)
    requires
        game.instances.contains_key(instance),
    ensures
        ({
            let queued = game.submit(
                first_reply,
                Request::ForInstance { instance, command: first },
            ).submit(second_reply, Request::ForInstance { instance, command: second });
            let settled = game.steps(game.pending.len());
            let handed_on = queued.steps(game.pending.len() + 2);
            &&& settled.instances.contains_key(instance)
            &&& handed_on.pending.len() == 0
            &&& handed_on.instances == settled.instances.insert(
                instance,
                settled.instances[instance].submit(first_reply, first).submit(
                    second_reply,
                    second,
                ),
            )
        }),
{
    let one = Request::ForInstance { instance, command: first };
    let other = Request::ForInstance { instance, command: second };
    let count = game.pending.len();
    lemma_game_first_in_first_out(game, first_reply, one, second_reply, other);
    lemma_steps_keep_instances(game, count);
    let queued = game.submit(first_reply, one).submit(second_reply, other);
    let settled = game.steps(count);
    assert(settled.instances.dom().contains(instance));
    lemma_steps_split(queued, count, 2);
    let due = queued.steps(count);
    assert(due.steps(2) == due.step().step()) by {
        reveal_with_fuel(GameView::steps, 3);
    }
    let done = due.step();
    assert(done.pending[0] == (second_reply, other));
    assert(done.step().pending =~= Seq::empty());
    assert(done.step().instances =~= settled.instances.insert(
        instance,
        settled.instances[instance].submit(first_reply, first).submit(second_reply, second),
    ));
}

/// Steps add up: `more` steps after `count` steps are `count + more` steps.
pub proof fn lemma_steps_split<R>(game: GameView<R>, count: nat, more: nat)
    ensures
        game.steps(count + more) == game.steps(count).steps(more),
    decreases count,
{
    if count > 0 {
        lemma_steps_split(game.step(), (count - 1) as nat, more);
    }
}

/// Work for an instance that does not exist is answered with
/// [`ReplyView::InstanceNotFound`], whatever waited before it: the step that
/// takes it up answers it then and there, hands it on to nobody, and leaves
/// every instance, state and queue, as it was.
pub proof fn lemma_unknown_instance_not_found<R>(
    game: GameView<R>,
    reply: R,
    instance: u64,
    command: Command,
)
    requires
        !game.instances.contains_key(instance),
    ensures
        ({
            let queued = game.submit(reply, Request::ForInstance { instance, command });
            let due = queued.steps(game.pending.len());
            &&& due.outcome() == StepView::Replied(reply, ReplyView::InstanceNotFound)
            &&& due.step().instances == due.instances
            &&& due.step().pending.len() == 0
            &&& due.step().shutting_down == due.shutting_down
        }),
{
    let request = Request::ForInstance { instance, command };
    let count = game.pending.len();
    lemma_game_steps_then_submit(game, reply, request, count);
    lemma_steps_keep_instances(game, count);
    let settled = game.steps(count);
    assert(settled.pending =~= Seq::empty());
    assert(settled.instances.dom().contains(instance) == game.instances.dom().contains(instance));
    let due = settled.submit(reply, request);
    assert(due.pending[0] == (reply, request));
    assert(due.step().pending =~= Seq::empty());
}

} // verus!
