use bioma::actor::{ActorContext, ActorId, Directory, SpawnOptions};
use bioma::behavior::{
    ActionBehavior, Behavior, BehaviorStatus, BehaviorTick, CompositeBehavior, DecoratorBehavior,
};
use bioma::error::SystemActorError;
use bioma::mailbox::Mailbox;
use bioma::send::SendOptions;

#[derive(Debug, PartialEq)]
struct Fact(u8);

impl Behavior for Fact {}

#[test]
fn behavior_nodes_hold_their_logic_and_children() {
    let a0 = ActorId::of("Action", "mock_action_0");
    let a1 = ActorId::of("Action", "mock_action_1");
    let composite_id = ActorId::of("Composite", "mock_composite");
    let action = ActionBehavior::new(Fact(0));
    assert_eq!(*action.node(), Fact(0));
    let composite = CompositeBehavior::new(Fact(1), vec![a0.clone(), a1.clone()]);
    assert_eq!(composite.children().len(), 2);
    assert!(composite.children()[0] == a0);
    assert!(composite.children()[1] == a1);
    assert_eq!(*composite.node(), Fact(1));
    let decorator = DecoratorBehavior::new(Fact(2), composite_id.clone());
    assert!(*decorator.child() == composite_id);
    assert_eq!(*decorator.node(), Fact(2));
    let _tick = BehaviorTick;
    assert_ne!(BehaviorStatus::Success, BehaviorStatus::Failure);
    assert_ne!(BehaviorStatus::Running, BehaviorStatus::Success);
}

#[derive(Clone, Debug)]
struct MockAction {
    fact: String,
}

impl Behavior for MockAction {}

#[derive(Clone, Debug)]
struct MockDecorator;

impl Behavior for MockDecorator {}

#[derive(Clone, Debug)]
struct MockComposite;

impl Behavior for MockComposite {}

enum Node {
    Action(ActionBehavior<MockAction>),
    Decorator(DecoratorBehavior<MockDecorator>),
    Composite(CompositeBehavior<MockComposite>),
    Main,
}

struct Running {
    id: ActorId,
    ctx: ActorContext,
    inbox: Mailbox,
    node: Node,
}

struct World {
    actors: Vec<Running>,
    clock: u64,
    log: Vec<String>,
}

fn encode(status: BehaviorStatus) -> Vec<u8> {
    match status {
        BehaviorStatus::Running => vec![0],
        BehaviorStatus::Success => vec![1],
        BehaviorStatus::Failure => vec![2],
    }
}

fn decode(bytes: &[u8]) -> BehaviorStatus {
    match bytes {
        [0] => BehaviorStatus::Running,
        [1] => BehaviorStatus::Success,
        _ => BehaviorStatus::Failure,
    }
}

impl World {
    fn index(&self, id: &ActorId) -> usize {
        self.actors.iter().position(|a| a.id == *id).unwrap()
    }

    fn now(&mut self) -> u64 {
        self.clock += 1;
        self.clock
    }

    fn send_tick(&mut self, from: usize, target: &ActorId) -> Result<BehaviorStatus, SystemActorError> {
        let _message = BehaviorTick;
        let to = self.index(target);
        let now = self.now();
        let (request, mut wait) = self.actors[from].ctx.send(
            target,
            None,
            now,
            "BehaviorTick",
            "BehaviorStatus",
            Vec::new(),
            &SendOptions::default(),
            now,
        )?;
        assert!(self.actors[to].inbox.deliver(request));

        let frame = self.actors[to].inbox.recv().unwrap();
        assert!(frame.is("BehaviorTick").is_some());
        let status = self.handle(to)?;
        let now = self.now();
        let reply = self.actors[to].ctx.reply(&frame, now, "BehaviorStatus", encode(status), now);
        assert!(self.actors[from].inbox.deliver(reply));

        let back = self.actors[from].inbox.recv().unwrap();
        let payload = wait.on_frame(&back).unwrap()?;
        Ok(decode(&payload))
    }

    fn handle(&mut self, at: usize) -> Result<BehaviorStatus, SystemActorError> {
        let children: Vec<ActorId> = match &self.actors[at].node {
            Node::Action(action) => {
                self.log.push(action.node().fact.clone());
                return Ok(BehaviorStatus::Success);
            }
            Node::Decorator(decorator) => {
                let child = decorator.child().clone();
                return self.send_tick(at, &child);
            }
            Node::Composite(composite) => composite.children().iter().map(|c| c.clone()).collect(),
            Node::Main => Vec::new(),
        };
        for child in &children {
            let status = self.send_tick(at, child)?;
            assert_eq!(status, BehaviorStatus::Success);
        }
        Ok(BehaviorStatus::Success)
    }
}

#[test]
fn test_behavior_mock() {
    let mut directory = Directory::new();

    let mock_action_id_0 = ActorId::of("ActionBehavior<MockAction>", "mock_action_0");
    let mock_action_id_1 = ActorId::of("ActionBehavior<MockAction>", "mock_action_1");
    let mock_action_id_2 = ActorId::of("ActionBehavior<MockAction>", "mock_action_2");
    let mock_action_id_3 = ActorId::of("ActionBehavior<MockAction>", "mock_action_3");
    let mock_decorator_id = ActorId::of("DecoratorBehavior<MockDecorator>", "mock_decorator");
    let mock_composite_id = ActorId::of("CompositeBehavior<MockComposite>", "mock_composite");
    let main_actor_id = ActorId::of("MainActor", "main");

    let mock_composite = CompositeBehavior::new(
        MockComposite,
        vec![
            mock_action_id_0.clone(),
            mock_action_id_1.clone(),
            mock_action_id_2.clone(),
            mock_action_id_3.clone(),
        ],
    );
    let mock_decorator = DecoratorBehavior::new(MockDecorator, mock_composite_id.clone());

    let nodes = vec![
        (mock_action_id_0, Node::Action(ActionBehavior::new(MockAction { fact: "0".to_string() }))),
        (mock_action_id_1, Node::Action(ActionBehavior::new(MockAction { fact: "1".to_string() }))),
        (mock_action_id_2, Node::Action(ActionBehavior::new(MockAction { fact: "2".to_string() }))),
        (mock_action_id_3, Node::Action(ActionBehavior::new(MockAction { fact: "3".to_string() }))),
        (mock_composite_id, Node::Composite(mock_composite)),
        (mock_decorator_id.clone(), Node::Decorator(mock_decorator)),
        (main_actor_id.clone(), Node::Main),
    ];

    let mut world = World { actors: Vec::new(), clock: 0, log: Vec::new() };
    for (id, node) in nodes {
        let spawned = directory.spawn(&id, Vec::new(), &SpawnOptions::default(), 0).unwrap();
        let inbox = Mailbox::new(id.clone());
        world.actors.push(Running { id, ctx: spawned.context, inbox, node });
    }

    let main = world.index(&main_actor_id);
    let status = world.send_tick(main, &mock_decorator_id).unwrap();
    assert_eq!(status, BehaviorStatus::Success);
    assert_eq!(world.log, vec!["0", "1", "2", "3"]);
    for actor in &world.actors {
        assert_eq!(actor.inbox.len(), 0);
    }
}
