use slashkit::descriptor::CommandDescriptor;
use slashkit::descriptor::CommandRecord;
use slashkit::descriptor::ParameterDescriptor;
use slashkit::registry::Registry;

fn parameter(name: &str, required: bool) -> ParameterDescriptor {
    ParameterDescriptor {
        name: String::from(name),
        description: String::from("a value"),
        required,
    }
}

#[test]
fn sync_payload_maps_each_command_to_its_record() {
    let mut registry = Registry::new();
    registry.register_command(CommandDescriptor {
        name: String::from("ping"),
        description: String::from("Replies pong!"),
        parameter_schema: Vec::new(),
    });
    let payload = registry.sync_payload();
    assert_eq!(payload.len(), 1);
    assert_eq!(
        payload[0],
        CommandRecord {
            name: String::from("ping"),
            description: String::from("Replies pong!"),
            options: Vec::new(),
        }
    );
}

#[test]
fn sync_payload_keeps_order_and_parameter_schema() {
    let mut registry = Registry::new();
    registry.register_command(CommandDescriptor {
        name: String::from("greet"),
        description: String::from("Greets someone"),
        parameter_schema: vec![parameter("who", true), parameter("greeting", false)],
    });
    registry.register_command(CommandDescriptor {
        name: String::from("ping"),
        description: String::from("Replies pong!"),
        parameter_schema: Vec::new(),
    });
    let payload = registry.sync_payload();
    assert_eq!(payload.len(), 2);
    assert_eq!(payload[0].name, "greet");
    assert_eq!(payload[0].options, vec![parameter("who", true), parameter("greeting", false)]);
    assert_eq!(payload[1].name, "ping");
    assert!(payload[1].options.is_empty());
}

#[test]
fn sync_payload_twice_yields_the_same_payload() {
    let mut registry = Registry::new();
    registry.register_command(CommandDescriptor {
        name: String::from("ping"),
        description: String::from("Replies pong!"),
        parameter_schema: vec![parameter("loud", false)],
    });
    let first = registry.sync_payload();
    let second = registry.sync_payload();
    assert_eq!(first, second);
}

#[test]
fn sync_payload_of_empty_registry_is_empty() {
    let registry = Registry::new();
    assert!(registry.sync_payload().is_empty());
}
