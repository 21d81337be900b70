use midiex::connect::{connect_plan, ConnectError, ConnectPlan, ConnectStep};
use midiex::ports::{
    count_ports, input_count_line, list_ports, output_count_line, port_name_or_default,
    Direction, NumPorts,
};

#[test]
fn default_port_name() {
    assert_eq!(port_name_or_default(Some("Synth".to_string())), "Synth");
    assert_eq!(port_name_or_default(None), "No device name given");
}

#[test]
fn list_inputs_then_outputs() {
    let inputs = vec![Some("Keys In".to_string()), None];
    let outputs = vec![Some("Synth Out".to_string())];
    let ports = list_ports(&inputs, &outputs);
    let seen: Vec<(Direction, String, usize)> = ports
        .iter()
        .map(|p| (p.direction, p.name.clone(), p.num))
        .collect();
    assert_eq!(
        seen,
        vec![
            (Direction::Input, "Keys In".to_string(), 0),
            (Direction::Input, "No device name given".to_string(), 1),
            (Direction::Output, "Synth Out".to_string(), 0),
        ]
    );
}

#[test]
fn list_no_ports() {
    assert!(list_ports(&Vec::new(), &Vec::new()).is_empty());
}

#[test]
fn listing_agrees_with_counts() {
    let inputs = vec![None, Some("a".to_string()), None];
    let outputs = vec![Some("b".to_string()), None];
    let ports = list_ports(&inputs, &outputs);
    let counts = count_ports(inputs.len(), outputs.len());
    let n_in = ports.iter().filter(|p| p.direction == Direction::Input).count();
    let n_out = ports.iter().filter(|p| p.direction == Direction::Output).count();
    assert_eq!(counts, NumPorts { input: n_in, output: n_out });
}

#[test]
fn count_ports_fields() {
    let c = count_ports(2, 5);
    assert_eq!(c.input, 2);
    assert_eq!(c.output, 5);
}

#[test]
fn count_lines() {
    assert_eq!(input_count_line(3), "\nMidi input ports: 3\n\r");
    assert_eq!(output_count_line(12), "Midi output ports: 12\n\r");
}

#[test]
fn connect_output_port() {
    assert_eq!(
        connect_plan(Direction::Output, Direction::Output),
        ConnectPlan { client: Direction::Output, step: ConnectStep::OpenOutput }
    );
}

#[test]
fn connect_input_port_is_refused() {
    let plan = connect_plan(Direction::Input, Direction::Input);
    assert_eq!(plan.client, Direction::Input);
    assert_eq!(plan.step, ConnectStep::Refuse(ConnectError::InputRatherThanOutput));
    assert_eq!(ConnectError::InputRatherThanOutput.message(), "Input connection rather than output.");
}

#[test]
fn connect_mismatched_handles_are_refused() {
    let a = connect_plan(Direction::Output, Direction::Input);
    assert_eq!(a.client, Direction::Output);
    assert_eq!(a.step, ConnectStep::Refuse(ConnectError::NoOutputConnection));
    let b = connect_plan(Direction::Input, Direction::Output);
    assert_eq!(b.client, Direction::Input);
    assert_eq!(b.step, ConnectStep::Refuse(ConnectError::NoOutputConnection));
    assert_eq!(ConnectError::NoOutputConnection.message(), "No output connection");
}
