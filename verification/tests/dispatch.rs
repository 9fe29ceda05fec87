use slashkit::descriptor::CommandDescriptor;
use slashkit::descriptor::Invocation;
use slashkit::registry::Registry;

fn command(name: &str, description: &str) -> CommandDescriptor {
    CommandDescriptor {
        name: String::from(name),
        description: String::from(description),
        parameter_schema: Vec::new(),
    }
}

fn invocation(name: &str) -> Invocation {
    Invocation { name: String::from(name), arguments: Vec::new() }
}

#[test]
fn dispatch_runs_the_one_matching_command() {
    let mut registry = Registry::new();
    registry.register_command(command("ping", "Replies pong!"));
    let call = registry.dispatch(invocation("ping")).expect("ping must match");
    assert_eq!(call.command_index, 0);
    assert_eq!(call.invocation, invocation("ping"));
}

#[test]
fn dispatch_hands_over_the_invocation_payload() {
    let mut registry = Registry::new();
    registry.register_command(command("echo", "Repeats the input"));
    let inv = Invocation {
        name: String::from("echo"),
        arguments: vec![String::from("hello"), String::from("world")],
    };
    let call = registry.dispatch(inv).expect("echo must match");
    assert_eq!(call.invocation.arguments, vec![String::from("hello"), String::from("world")]);
}

#[test]
fn dispatch_without_match_runs_nothing() {
    let mut registry = Registry::new();
    registry.register_command(command("ping", "Replies pong!"));
    assert!(registry.dispatch(invocation("pong")).is_none());
}

#[test]
fn dispatch_on_empty_registry_runs_nothing() {
    let registry = Registry::new();
    assert!(registry.dispatch(invocation("ping")).is_none());
}

#[test]
fn dispatch_matches_exactly_and_case_sensitively() {
    let mut registry = Registry::new();
    registry.register_command(command("ping", "Replies pong!"));
    assert!(registry.dispatch(invocation("Ping")).is_none());
    assert!(registry.dispatch(invocation("pin")).is_none());
    assert!(registry.dispatch(invocation("pings")).is_none());
}

#[test]
fn dispatch_scans_in_registry_order() {
    let mut registry = Registry::new();
    registry.register_command(command("echo", "Repeats the input"));
    registry.register_command(command("ping", "Replies pong!"));
    let call = registry.dispatch(invocation("ping")).expect("ping must match");
    assert_eq!(call.command_index, 1);
}

#[test]
fn dispatch_first_match_wins_on_duplicate_names() {
    let mut registry = Registry::new();
    registry.register_command(command("ping", "first"));
    registry.register_command(command("ping", "second"));
    let call = registry.dispatch(invocation("ping")).expect("ping must match");
    assert_eq!(call.command_index, 0);
}
