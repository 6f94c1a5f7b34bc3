use discern::command::Command;
use discern::command::CommandBus;
use discern::command::CommandHandler;
use discern::erasure::Erased;
use std::any::Any;
use discern::failure::MechanismFailure;
use discern::registry::answer_command;
use discern::registry::handle_command;
use discern::registry::CommandHandlerRegistry;
use discern::registry::CommandHandlerWrapper;
use std::any::TypeId;
use std::sync::atomic::AtomicUsize;
use std::sync::atomic::Ordering;
use std::sync::Arc;

#[derive(Debug)]
struct CreateUser {
    username: String,
    email: String,
}

#[derive(Debug, PartialEq)]
enum CreateUserError {
    UsernameTaken,
    EmailTaken,
}

impl Command for CreateUser {
    type Metadata = u64;
    type Error = CreateUserError;
}

struct AlwaysOne;

impl CommandHandler<CreateUser> for AlwaysOne {
    fn handle(&self, _command: CreateUser) -> Result<u64, CreateUserError> {
        Ok(1)
    }
}

struct Directory {
    next: u64,
}

impl CommandHandler<CreateUser> for Directory {
    fn handle(&self, command: CreateUser) -> Result<u64, CreateUserError> {
        if command.username == "root" {
            Err(CreateUserError::UsernameTaken)
        } else if command.email == "root@x" {
            Err(CreateUserError::EmailTaken)
        } else {
            Ok(self.next)
        }
    }
}

// Same fields as `CreateUser`, but a type of its own.
#[derive(Debug)]
struct InviteUser {
    username: String,
    email: String,
}

impl Command for InviteUser {
    type Metadata = u64;
    type Error = CreateUserError;
}

struct Inviter;

impl CommandHandler<InviteUser> for Inviter {
    fn handle(&self, command: InviteUser) -> Result<u64, CreateUserError> {
        Ok((command.username.len() + command.email.len()) as u64)
    }
}

#[derive(Debug)]
struct Rename {
    id: u32,
    name: String,
}

#[derive(Debug, PartialEq)]
struct Renamed {
    id: u32,
    old_length: usize,
    name: String,
}

impl Command for Rename {
    type Metadata = Renamed;
    type Error = String;
}

struct Renamer;

impl CommandHandler<Rename> for Renamer {
    fn handle(&self, command: Rename) -> Result<Renamed, String> {
        if command.name.is_empty() {
            Err(format!("empty name for {}", command.id))
        } else {
            Ok(Renamed { id: command.id, old_length: 3, name: command.name })
        }
    }
}

#[derive(Debug)]
struct Square(u64);

impl Command for Square {
    type Metadata = u64;
    type Error = ();
}

struct Squarer {
    calls: Arc<AtomicUsize>,
}

impl CommandHandler<Square> for Squarer {
    fn handle(&self, command: Square) -> Result<u64, ()> {
        self.calls.fetch_add(1, Ordering::SeqCst);
        Ok(command.0 * command.0)
    }
}

struct Deaf;

impl CommandHandlerWrapper for Deaf {
    fn execute(&self, _command: Erased) -> Option<Erased> {
        None
    }
}

struct Echo;

impl CommandHandlerWrapper for Echo {
    fn execute(&self, command: Erased) -> Option<Erased> {
        Some(command)
    }
}

fn alice() -> CreateUser {
    CreateUser { username: "alice".to_string(), email: "alice@x".to_string() }
}

#[test]
fn create_user_returns_the_handlers_identifier() {
    let mut registry = CommandHandlerRegistry::new();
    registry.register::<CreateUser>(AlwaysOne);
    let bus = CommandBus::new(registry);
    assert_eq!(bus.dispatch(alice()), Ok(Ok(1)));
}

#[test]
fn command_with_no_handler_is_not_served() {
    let bus = CommandBus::new(CommandHandlerRegistry::new());
    assert!(!bus.serves_type::<CreateUser>());
}

#[test]
fn command_types_with_equal_fields_do_not_collide() {
    let mut registry = CommandHandlerRegistry::new();
    registry.register::<CreateUser>(AlwaysOne);
    let bus = CommandBus::new(registry);
    assert!(!bus.serves_type::<InviteUser>());
    assert!(bus.serves_type::<CreateUser>());
    assert_eq!(bus.dispatch(alice()), Ok(Ok(1)));
}

#[test]
fn each_command_type_reaches_its_own_handler() {
    let mut registry = CommandHandlerRegistry::new();
    registry.register::<CreateUser>(AlwaysOne);
    registry.register::<InviteUser>(Inviter);
    registry.register::<Rename>(Renamer);
    let bus = CommandBus::new(registry);
    let invite = InviteUser { username: "bob".to_string(), email: "bob@x".to_string() };
    assert_eq!(bus.dispatch(invite), Ok(Ok(8)));
    assert_eq!(bus.dispatch(alice()), Ok(Ok(1)));
    assert_eq!(
        bus.dispatch(Rename { id: 7, name: "new".to_string() }),
        Ok(Ok(Renamed { id: 7, old_length: 3, name: "new".to_string() }))
    );
}

#[test]
fn second_command_registration_replaces_the_first() {
    let mut registry = CommandHandlerRegistry::new();
    registry.register::<CreateUser>(AlwaysOne);
    registry.register::<CreateUser>(Directory { next: 42 });
    let bus = CommandBus::new(registry);
    assert_eq!(bus.dispatch(alice()), Ok(Ok(42)));
}

#[test]
fn replacing_one_command_handler_leaves_the_others() {
    let mut registry = CommandHandlerRegistry::new();
    registry.register::<InviteUser>(Inviter);
    registry.register::<CreateUser>(Directory { next: 5 });
    registry.register::<CreateUser>(Directory { next: 6 });
    let bus = CommandBus::new(registry);
    let invite = InviteUser { username: "al".to_string(), email: "a@x".to_string() };
    assert_eq!(bus.dispatch(invite), Ok(Ok(5)));
    assert_eq!(bus.dispatch(alice()), Ok(Ok(6)));
}

#[test]
fn command_success_comes_back_as_the_handler_gave_it() {
    let mut registry = CommandHandlerRegistry::new();
    registry.register::<Rename>(Renamer);
    let bus = CommandBus::new(registry);
    let outcome = bus.dispatch(Rename { id: 9, name: "zed".to_string() });
    assert_eq!(outcome, Ok(Ok(Renamed { id: 9, old_length: 3, name: "zed".to_string() })));
}

#[test]
fn command_error_comes_back_as_the_handler_gave_it() {
    let mut registry = CommandHandlerRegistry::new();
    registry.register::<Rename>(Renamer);
    registry.register::<CreateUser>(Directory { next: 1 });
    let bus = CommandBus::new(registry);
    let outcome = bus.dispatch(Rename { id: 9, name: String::new() });
    assert_eq!(outcome, Ok(Err("empty name for 9".to_string())));
    let taken = CreateUser { username: "root".to_string(), email: "r@x".to_string() };
    assert_eq!(bus.dispatch(taken), Ok(Err(CreateUserError::UsernameTaken)));
    let taken = CreateUser { username: "r".to_string(), email: "root@x".to_string() };
    assert_eq!(bus.dispatch(taken), Ok(Err(CreateUserError::EmailTaken)));
}

#[test]
fn cloned_command_buses_share_one_registry() {
    let calls = Arc::new(AtomicUsize::new(0));
    let mut registry = CommandHandlerRegistry::new();
    registry.register::<Square>(Squarer { calls: Arc::clone(&calls) });
    let bus = CommandBus::new(registry);
    let other = bus.clone();
    assert_eq!(bus.dispatch(Square(3)), Ok(Ok(9)));
    assert_eq!(other.dispatch(Square(4)), Ok(Ok(16)));
    assert_eq!(calls.load(Ordering::SeqCst), 2);
}

#[test]
fn command_bus_tells_whether_a_type_is_served() {
    let mut registry = CommandHandlerRegistry::new();
    registry.register::<CreateUser>(AlwaysOne);
    registry.register_as::<Square>(TypeId::of::<Rename>(), Squarer { calls: Arc::new(AtomicUsize::new(0)) });
    let bus = CommandBus::new(registry);
    assert!(bus.serves_type::<CreateUser>());
    assert!(bus.serves_type::<Rename>());
    assert!(!bus.serves_type::<Square>());
    assert!(!bus.serves_type::<InviteUser>());
    assert_eq!(bus.serves_type::<CreateUser>(), bus.serves(&TypeId::of::<CreateUser>()));
    assert_eq!(bus.serves_type::<Square>(), bus.serves(&TypeId::of::<Square>()));
}

#[test]
fn many_command_dispatches_keep_their_own_results() {
    let calls = Arc::new(AtomicUsize::new(0));
    let mut registry = CommandHandlerRegistry::new();
    registry.register::<Square>(Squarer { calls: Arc::clone(&calls) });
    let bus = CommandBus::new(registry);
    let buses: Vec<CommandBus> = (0..16).map(|_| bus.clone()).collect();
    let mut outcomes = Vec::new();
    for (index, bus) in buses.iter().enumerate().rev() {
        outcomes.push((index as u64, bus.dispatch(Square(index as u64))));
    }
    assert_eq!(outcomes.len(), 16);
    for (index, outcome) in outcomes {
        assert_eq!(outcome, Ok(Ok(index * index)));
    }
    assert_eq!(calls.load(Ordering::SeqCst), 16);
}

#[test]
fn command_entry_under_a_foreign_identity_is_a_type_mismatch() {
    let mut source = CommandHandlerRegistry::new();
    source.register::<CreateUser>(AlwaysOne);
    let entry = source.get_handler::<CreateUser>().unwrap();
    let mut registry = CommandHandlerRegistry::new();
    registry.register_entry(TypeId::of::<InviteUser>(), entry);
    let bus = CommandBus::new(registry);
    let invite = InviteUser { username: "alice".to_string(), email: "alice@x".to_string() };
    assert_eq!(bus.dispatch(invite), Err(MechanismFailure::TypeMismatch));
    assert!(!bus.serves_type::<CreateUser>());
}

#[test]
fn command_reply_of_another_type_is_a_type_mismatch() {
    let mut registry = CommandHandlerRegistry::new();
    registry.register_entry(TypeId::of::<CreateUser>(), Arc::new(Box::new(Echo)));
    let bus = CommandBus::new(registry);
    assert_eq!(bus.dispatch(alice()), Err(MechanismFailure::TypeMismatch));
}

#[test]
fn command_route_hands_the_reply_back_unchanged() {
    let mut registry = CommandHandlerRegistry::new();
    registry.register::<Rename>(Renamer);
    let bus = CommandBus::new(registry);
    let key = TypeId::of::<Rename>();
    let reply = bus.route(&key, seal(Rename { id: 2, name: "two".to_string() }));
    let reply = match reply {
        Ok(reply) => reply,
        Err(failure) => panic!("routing failed: {:?}", failure),
    };
    assert_eq!(
        open::<Result<Renamed, String>>(reply),
        Some(Ok(Renamed { id: 2, old_length: 3, name: "two".to_string() }))
    );
}

#[test]
fn command_bus_serves_only_registered_identities() {
    let mut registry = CommandHandlerRegistry::new();
    registry.register::<Rename>(Renamer);
    let bus = CommandBus::new(registry);
    assert!(bus.serves(&TypeId::of::<Rename>()));
    assert!(!bus.serves(&TypeId::of::<CreateUser>()));
    assert!(!bus.serves(&TypeId::of::<InviteUser>()));
    assert!(!CommandBus::new(CommandHandlerRegistry::new()).serves(&TypeId::of::<Rename>()));
    assert!(!bus.serves_type::<CreateUser>());
}

#[test]
fn command_route_reports_an_unrecognised_command() {
    let mut registry = CommandHandlerRegistry::new();
    registry.register::<Rename>(Renamer);
    registry.register_entry(TypeId::of::<Square>(), Arc::new(Box::new(Deaf)));
    let bus = CommandBus::new(registry);
    let wrong = bus.route(&TypeId::of::<Rename>(), seal(alice()));
    assert!(matches!(wrong, Err(MechanismFailure::TypeMismatch)));
    let deaf = bus.route(&TypeId::of::<Square>(), seal(Square(2)));
    assert!(matches!(deaf, Err(MechanismFailure::TypeMismatch)));
}

#[test]
fn command_route_returns_what_a_custom_entry_answers() {
    let mut registry = CommandHandlerRegistry::new();
    registry.register_entry(TypeId::of::<Square>(), Arc::new(Box::new(Echo)));
    let bus = CommandBus::new(registry);
    let reply = bus.route(&TypeId::of::<Square>(), seal(Square(12)));
    let reply = match reply {
        Ok(reply) => reply,
        Err(failure) => panic!("routing failed: {:?}", failure),
    };
    assert_eq!(open::<Square>(reply).map(|square| square.0), Some(12));
}

#[test]
fn command_registry_finds_only_registered_types() {
    let mut registry = CommandHandlerRegistry::new();
    assert!(registry.get_handler::<CreateUser>().is_none());
    registry.register::<CreateUser>(AlwaysOne);
    assert!(registry.get_handler::<CreateUser>().is_some());
    assert!(registry.get_handler::<InviteUser>().is_none());
    assert!(registry.entry(&TypeId::of::<CreateUser>()).is_some());
    assert!(registry.entry(&TypeId::of::<Rename>()).is_none());
}

#[test]
fn command_entry_executes_the_wrapped_handler() {
    let mut registry = CommandHandlerRegistry::new();
    registry.register::<CreateUser>(Directory { next: 77 });
    let entry = registry.get_handler::<CreateUser>().unwrap();
    let reply = entry.execute(seal(alice())).unwrap();
    assert_eq!(open::<Result<u64, CreateUserError>>(reply), Some(Ok(77)));
    assert!(entry.execute(seal(Square(1))).is_none());
}

#[test]
fn default_command_registry_is_empty() {
    let registry = CommandHandlerRegistry::default();
    assert!(registry.get_handler::<CreateUser>().is_none());
    let bus = CommandBus::new(registry);
    assert!(!bus.serves_type::<Square>());
}

#[test]
fn command_registered_under_its_identity_is_dispatched_under_it() {
    let key = TypeId::of::<CreateUser>();
    let mut registry = CommandHandlerRegistry::new();
    registry.register_as::<CreateUser>(key, Directory { next: 11 });
    let bus = CommandBus::new(registry);
    assert_eq!(bus.dispatch_as(&key, alice()), Ok(Ok(11)));
    assert_eq!(bus.dispatch(alice()), Ok(Ok(11)));
    let other = TypeId::of::<InviteUser>();
    assert!(bus.serves(&key));
    assert!(!bus.serves(&other));
}

#[test]
fn command_dispatched_under_a_foreign_identity_is_a_type_mismatch() {
    let mut registry = CommandHandlerRegistry::new();
    registry.register::<CreateUser>(AlwaysOne);
    registry.register_as::<Square>(TypeId::of::<Rename>(), Squarer { calls: Arc::new(AtomicUsize::new(0)) });
    let bus = CommandBus::new(registry);
    let invite = InviteUser { username: "alice".to_string(), email: "alice@x".to_string() };
    assert_eq!(bus.dispatch_as(&TypeId::of::<CreateUser>(), invite), Err(MechanismFailure::TypeMismatch));
    assert_eq!(
        bus.dispatch(Rename { id: 1, name: "one".to_string() }),
        Err(MechanismFailure::TypeMismatch)
    );
    assert!(!bus.serves_type::<Square>());
}

#[test]
fn command_type_is_inferred_from_the_handler() {
    let mut registry = CommandHandlerRegistry::new();
    registry.register(AlwaysOne);
    registry.register(Renamer);
    let bus = CommandBus::new(registry);
    assert_eq!(bus.dispatch(alice()), Ok(Ok(1)));
    assert_eq!(bus.dispatch(Rename { id: 3, name: String::new() }), Ok(Err("empty name for 3".to_string())));
}

#[test]
fn command_is_handled_through_its_entry() {
    let mut registry = CommandHandlerRegistry::new();
    registry.register::<CreateUser>(Directory { next: 21 });
    let entry = registry.get_handler::<CreateUser>().unwrap();
    assert_eq!(handle_command(&entry, alice()), Ok(Ok(21)));
    let taken = CreateUser { username: "root".to_string(), email: "r@x".to_string() };
    assert_eq!(handle_command(&entry, taken), Ok(Err(CreateUserError::UsernameTaken)));
    assert_eq!(handle_command(&entry, Square(3)), Err(MechanismFailure::TypeMismatch));
    let echo: discern::registry::CommandEntry = Arc::new(Box::new(Echo));
    assert_eq!(handle_command(&echo, Square(3)), Err(MechanismFailure::TypeMismatch));
    let deaf: discern::registry::CommandEntry = Arc::new(Box::new(Deaf));
    assert_eq!(handle_command(&deaf, Square(3)), Err(MechanismFailure::TypeMismatch));
}

#[test]
fn command_handler_answers_exactly_a_recovered_command() {
    let handler: Box<dyn CommandHandler<CreateUser>> = Box::new(Directory { next: 5 });
    assert_eq!(answer_command(&handler, None), None);
    assert_eq!(answer_command(&handler, Some(alice())), Some(Ok(5)));
    let taken = CreateUser { username: "r".to_string(), email: "root@x".to_string() };
    assert_eq!(answer_command(&handler, Some(taken)), Some(Err(CreateUserError::EmailTaken)));
}

fn seal<T: Any + Send>(value: T) -> Erased {
    Erased { inner: Box::new(value) }
}

fn open<T: Any>(hidden: Erased) -> Option<T> {
    match hidden.inner.downcast::<T>() {
        Ok(value) => Some(*value),
        Err(_) => None,
    }
}
