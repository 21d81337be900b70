use midiex::report::{
    chosen_device_line, endpoint_report_lines, first_device, get_display_name, input_heading_line,
    lookup_text, output_heading_line, port_line, probe_line, probe_report_lines, shown_name_text,
    source_line, subscription_message, wrap_err, wrap_ok, PortNameError, PortProbe,
};
use midiex::text::decimal_text;

#[test]
fn decimal_texts() {
    assert_eq!(decimal_text(0), "0");
    assert_eq!(decimal_text(7), "7");
    assert_eq!(decimal_text(105), "105");
    assert_eq!(decimal_text(usize::MAX), usize::MAX.to_string());
}

#[test]
fn names_are_quoted_and_escaped() {
    assert_eq!(lookup_text(&Ok("a\"b".to_string())), "Ok(\"a\\\"b\")");
    assert_eq!(lookup_text(&Ok("tab\there".to_string())), "Ok(\"tab\\there\")");
}

#[test]
fn lookup_texts() {
    assert_eq!(wrap_ok("\"x\""), "Ok(\"x\")");
    assert_eq!(wrap_err(PortNameError::InvalidPort), "Err(InvalidPort)");
    assert_eq!(lookup_text(&Ok("Synth".to_string())), "Ok(\"Synth\")");
    assert_eq!(
        lookup_text(&Err(PortNameError::CannotRetrievePortName)),
        "Err(CannotRetrievePortName)"
    );
    assert_eq!(
        lookup_text(&Err(PortNameError::PortNumberOutOfRange)),
        "Err(PortNumberOutOfRange)"
    );
    assert_eq!(shown_name_text(&Err(PortNameError::InvalidPort)), "No device name given");
}

#[test]
fn probe_lines_format() {
    assert_eq!(port_line(2, "\"Synth\""), "\t2\t \"Synth\"\r");
    assert_eq!(
        probe_line(2, "Ok(\"Synth\")", false, false),
        "\t2 with name Ok(\"Synth\") has an error: false\r"
    );
    assert_eq!(
        probe_line(0, "Err(InvalidPort)", true, true),
        "\t0 with name Err(InvalidPort) has an error: true\r\n"
    );
    assert_eq!(output_heading_line(1), "\n1 MIDI output ports:\r");
    assert_eq!(input_heading_line(1), "\n\r1 MIDI input ports:\r");
}

#[test]
fn probe_report_whole() {
    let outputs = vec![PortProbe {
        listed: Ok("Out A".to_string()),
        by_index: Ok("Out A".to_string()),
        by_index_failed: false,
        by_item: Err(PortNameError::CannotRetrievePortName),
        by_item_failed: true,
    }];
    let inputs = vec![PortProbe {
        listed: Err(PortNameError::InvalidPort),
        by_index: Err(PortNameError::InvalidPort),
        by_index_failed: true,
        by_item: Ok("In".to_string()),
        by_item_failed: false,
    }];
    let lines = probe_report_lines(1, &outputs, &inputs);
    assert_eq!(
        lines,
        vec![
            "\n1 MIDI output ports:\r".to_string(),
            "\t0\t \"Out A\"\r".to_string(),
            "\t0 with name Ok(\"Out A\") has an error: false\r".to_string(),
            "\t0 with name Err(CannotRetrievePortName) has an error: true\r\n".to_string(),
            "\n\r1 MIDI input ports:\r".to_string(),
            "\t0\t \"No device name given\"\r".to_string(),
            "\t0 with name Err(InvalidPort) has an error: true\r".to_string(),
            "\t0 with name Ok(\"In\") has an error: false\r\n".to_string(),
        ]
    );
}

#[test]
fn input_heading_repeats_output_count() {
    let lines = probe_report_lines(3, &Vec::new(), &Vec::new());
    assert_eq!(
        lines,
        vec!["\n3 MIDI output ports:\r".to_string(), "\n\r3 MIDI input ports:\r".to_string()]
    );
}

#[test]
fn display_names() {
    assert_eq!(get_display_name(Some("IAC Bus".to_string())), "IAC Bus");
    assert_eq!(get_display_name(None), "[Unknown Display Name]");
    assert_eq!(source_line(4, "IAC Bus"), "[4] IAC Bus");
}

#[test]
fn endpoint_report() {
    let sources = vec![Some("Keys".to_string()), None];
    let lines = endpoint_report_lines(2, &sources);
    assert_eq!(
        lines,
        vec![
            "System destinations:".to_string(),
            "System sources:".to_string(),
            "System sources:".to_string(),
            String::new(),
            "System sources:".to_string(),
            "[0] Keys".to_string(),
            "[1] [Unknown Display Name]".to_string(),
        ]
    );
}

#[test]
fn first_device_choice() {
    assert_eq!(first_device(0), None);
    assert_eq!(first_device(3), Some(0));
    assert_eq!(chosen_device_line("Synth"), "Chose MIDI device Synth");
}

#[test]
fn subscription_payload() {
    let (key, text) = subscription_message();
    assert_eq!(key, "message");
    assert_eq!(text, "You recieved this message from Rust.");
}
