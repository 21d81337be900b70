//! The text the bridge prints when it probes the system's MIDI ports.

use vstd::prelude::*;
use crate::ports::unnamed_port;
use crate::text::{decimal, bool_text, debug_quoted, debug_text, append_decimal, append_bool};

verus! {

/// Why a port's name could not be read, one variant for each reason the
/// MIDI backend gives.
#[derive(Clone, Copy, Debug, PartialEq, Eq, Structural)]
pub enum PortNameError {
    PortNumberOutOfRange,
    InvalidPort,
    CannotRetrievePortName,
}

/// The variant's name, as `Debug` prints the error.
pub open spec fn error_variant(e: PortNameError) -> Seq<char> {
    match e {
        PortNameError::PortNumberOutOfRange => "PortNumberOutOfRange"@,
        PortNameError::InvalidPort => "InvalidPort"@,
        PortNameError::CannotRetrievePortName => "CannotRetrievePortName"@,
    }
}

/// A name lookup, taken by its characters.
pub open spec fn result_view(r: Result<String, PortNameError>) -> Result<Seq<char>, PortNameError> {
    match r {
        Ok(name) => Ok(name@),
        Err(e) => Err(e),
    }
}

/// A name lookup as `Debug` prints it: `Ok("name")` or `Err(Variant)`.
pub open spec fn lookup_debug(r: Result<Seq<char>, PortNameError>) -> Seq<char> {
    match r {
        Ok(name) => "Ok("@ + debug_quoted(name) + ")"@,
        Err(e) => "Err("@ + error_variant(e) + ")"@,
    }
}

/// The name printed for a port: the name read, or the placeholder.
pub open spec fn shown_name(r: Result<Seq<char>, PortNameError>) -> Seq<char> {
    match r {
        Ok(name) => name,
        Err(_) => unnamed_port(),
    }
}

/// What probing one port found: the name read while listing it, then two
/// more reads of its name (one through the port taken by its index, one
/// through the port being iterated), each followed by a read of whether it
/// failed.
#[derive(Debug)]
pub struct PortProbe {
    pub listed: Result<String, PortNameError>,
    pub by_index: Result<String, PortNameError>,
    pub by_index_failed: bool,
    pub by_item: Result<String, PortNameError>,
    pub by_item_failed: bool,
}

/// `"\t{i}\t {quoted}\r"`.
pub open spec fn spec_port_line(i: nat, quoted: Seq<char>) -> Seq<char> {
    "\t"@ + decimal(i) + "\t "@ + quoted + "\r"@
}

/// `"\t{i} with name {shown} has an error: {failed}\r"`, with one more
/// `"\n"` when `blank_after`.
pub open spec fn spec_probe_line(i: nat, shown: Seq<char>, failed: bool, blank_after: bool) -> Seq<char> {
    "\t"@ + decimal(i) + " with name "@ + shown + " has an error: "@ + bool_text(failed) + (if blank_after {
        "\r\n"@
    } else {
        "\r"@
    })
}

/// The three lines printed for port `i`.
pub open spec fn probe_lines(i: nat, p: PortProbe) -> Seq<Seq<char>> {
    seq![
        spec_port_line(i, debug_quoted(shown_name(result_view(p.listed)))),
        spec_probe_line(i, lookup_debug(result_view(p.by_index)), p.by_index_failed, false),
        spec_probe_line(i, lookup_debug(result_view(p.by_item)), p.by_item_failed, true),
    ]
}

/// The lines printed for all of `probes`, three per port.
pub open spec fn all_probe_lines(probes: Seq<PortProbe>) -> Seq<Seq<char>> {
    Seq::new(3 * probes.len(), |k: int| probe_lines((k / 3) as nat, probes[k / 3])[k % 3])
}

/// The heading before the output ports.
pub open spec fn output_heading(n: nat) -> Seq<char> {
    "\n"@ + decimal(n) + " MIDI output ports:\r"@
}

/// The heading before the input ports.
pub open spec fn input_heading(n: nat) -> Seq<char> {
    "\n\r"@ + decimal(n) + " MIDI input ports:\r"@
}

/// The whole probe report. Both headings give `output_count`, the number of
/// output ports found before probing.
pub open spec fn probe_report(output_count: nat, outputs: Seq<PortProbe>, inputs: Seq<PortProbe>) -> Seq<Seq<char>> {
    seq![output_heading(output_count)] + all_probe_lines(outputs) + seq![input_heading(output_count)]
        + all_probe_lines(inputs)
}

/// `Ok(` and `)` around the quoted name.
pub fn wrap_ok(quoted: &str) -> (text: String)
    ensures
        text@ == "Ok("@ + quoted@ + ")"@,
{
    let mut text = String::from_str("Ok(");
    text.append(quoted);
    text.append(")");
    text
}

/// `Err(` and `)` around the error's variant name.
pub fn wrap_err(e: PortNameError) -> (text: String)
    ensures
        text@ == "Err("@ + error_variant(e) + ")"@,
{
    let mut text = String::from_str("Err(");
    match e {
        PortNameError::PortNumberOutOfRange => text.append("PortNumberOutOfRange"),
        PortNameError::InvalidPort => text.append("InvalidPort"),
        PortNameError::CannotRetrievePortName => text.append("CannotRetrievePortName"),
    }
    text.append(")");
    text
}

/// A name lookup as `Debug` prints it.
pub fn lookup_text(lookup: &Result<String, PortNameError>) -> (text: String)
    ensures
        text@ == lookup_debug(result_view(*lookup)),
{
    match lookup {
        Ok(name) => {
            let quoted = debug_text(name.as_str());
            wrap_ok(quoted.as_str())
        },
        Err(e) => wrap_err(*e),
    }
}

/// The name printed for a port whose name lookup gave `lookup`.
pub fn shown_name_text(lookup: &Result<String, PortNameError>) -> (text: String)
    ensures
        text@ == shown_name(result_view(*lookup)),
{
    match lookup {
        Ok(name) => name.clone(),
        Err(_) => String::from_str("No device name given"),
    }
}

/// The line that lists port `i` under its quoted name.
pub fn port_line(i: usize, quoted: &str) -> (line: String)
    ensures
        line@ == spec_port_line(i as nat, quoted@),
{
    let mut line = String::from_str("\t");
    append_decimal(&mut line, i);
    line.append("\t ");
    line.append(quoted);
    line.append("\r");
    line
}

/// The line that reports one name read of port `i` and whether it failed.
pub fn probe_line(i: usize, shown: &str, failed: bool, blank_after: bool) -> (line: String)
    ensures
        line@ == spec_probe_line(i as nat, shown@, failed, blank_after),
{
    let mut line = String::from_str("\t");
    append_decimal(&mut line, i);
    line.append(" with name ");
    line.append(shown);
    line.append(" has an error: ");
    append_bool(&mut line, failed);
    if blank_after {
        line.append("\r\n");
    } else {
        line.append("\r");
    }
    line
}

/// The heading printed before the output ports.
pub fn output_heading_line(n: usize) -> (line: String)
    ensures
        line@ == output_heading(n as nat),
{
    let mut line = String::from_str("\n");
    append_decimal(&mut line, n);
    line.append(" MIDI output ports:\r");
    line
}

/// The heading printed before the input ports.
pub fn input_heading_line(n: usize) -> (line: String)
    ensures
        line@ == input_heading(n as nat),
{
    let mut line = String::from_str("\n\r");
    append_decimal(&mut line, n);
    line.append(" MIDI input ports:\r");
    line
}

/// Appends the three lines for each probe.
fn push_probe_lines(lines: &mut Vec<String>, probes: &Vec<PortProbe>)
    requires
        old(lines)@.len() + 3 * probes@.len() <= usize::MAX,
    ensures
        final(lines)@.map_values(|l: String| l@) =~= old(lines)@.map_values(|l: String| l@) + all_probe_lines(
            probes@,
        ),
{
    let ghost start = lines@.map_values(|l: String| l@);
    let mut k: usize = 0;
    while k < probes.len()
        invariant
            k <= probes@.len(),
            start.len() + 3 * probes@.len() <= usize::MAX,
            lines@.map_values(|l: String| l@) =~= start + all_probe_lines(probes@.take(k as int)),
        decreases probes@.len() - k,
    {
        let p = &probes[k];
        let shown = shown_name_text(&p.listed);
        let quoted = debug_text(shown.as_str());
        let l1 = port_line(k, quoted.as_str());
        let t2 = lookup_text(&p.by_index);
        let l2 = probe_line(k, t2.as_str(), p.by_index_failed, false);
        let t3 = lookup_text(&p.by_item);
        let l3 = probe_line(k, t3.as_str(), p.by_item_failed, true);
        let ghost before = lines@;
        let ghost three = seq![l1@, l2@, l3@];
        assert(three =~= probe_lines(k as nat, probes@[k as int]));
        lines.push(l1);
        lines.push(l2);
        lines.push(l3);
        assert(lines@.map_values(|l: String| l@) =~= before.map_values(|l: String| l@) + three);
        proof {
            let prev = probes@.take(k as int);
            let next = probes@.take(k + 1);
            assert(all_probe_lines(next) =~= all_probe_lines(prev) + probe_lines(k as nat, probes@[k as int])) by {
                assert forall|i: int| 0 <= i < 3 * next.len() implies #[trigger] all_probe_lines(next)[i]
                    == (all_probe_lines(prev) + probe_lines(k as nat, probes@[k as int]))[i] by {
                    if i < 3 * prev.len() {
                        assert(i / 3 < prev.len());
                        assert(next[i / 3] == prev[i / 3]);
                    } else {
                        assert(i / 3 == k);
                    }
                }
            }
        }
        k = k + 1;
    }
    assert(probes@.take(probes@.len() as int) =~= probes@);
}

/// The report printed when probing the ports: the output heading, three
/// lines per output port, the input heading, three lines per input port.
/// Both headings give `output_count`.
pub fn probe_report_lines(output_count: usize, outputs: &Vec<PortProbe>, inputs: &Vec<PortProbe>) -> (lines: Vec<String>)
    requires
        2 + 3 * outputs@.len() + 3 * inputs@.len() <= usize::MAX,
    ensures
        lines@.map_values(|l: String| l@) =~= probe_report(output_count as nat, outputs@, inputs@),
{
    let mut lines: Vec<String> = Vec::new();
    let first = output_heading_line(output_count);
    lines.push(first);
    assert(lines@.map_values(|l: String| l@) =~= seq![output_heading(output_count as nat)]);
    push_probe_lines(&mut lines, outputs);
    let ghost before = lines@;
    let second = input_heading_line(output_count);
    lines.push(second);
    assert(lines@.map_values(|l: String| l@) =~= before.map_values(|l: String| l@).push(
        input_heading(output_count as nat),
    ));
    push_probe_lines(&mut lines, inputs);
    lines
}

/// The name shown for a system endpoint: its display name, or
/// "[Unknown Display Name]" when it has none.
pub open spec fn display_name(name: Option<Seq<char>>) -> Seq<char> {
    match name {
        Some(n) => n,
        None => "[Unknown Display Name]"@,
    }
}

/// An optional name, taken by its characters.
pub open spec fn name_view(name: Option<String>) -> Option<Seq<char>> {
    match name {
        Some(n) => Some(n@),
        None => None,
    }
}

/// `"[{i}] {name}"`.
pub open spec fn spec_source_line(i: nat, name: Seq<char>) -> Seq<char> {
    "["@ + decimal(i) + "] "@ + name
}

/// The listing of the system's endpoints: a heading for the destinations,
/// then (for each destination) the sources heading, an empty line, the
/// sources heading again, and one line per source.
pub open spec fn endpoint_report(destinations: nat, sources: Seq<Option<String>>) -> Seq<Seq<char>> {
    seq!["System destinations:"@] + Seq::new(destinations, |k: int| "System sources:"@) + seq![
        Seq::empty(),
        "System sources:"@,
    ] + Seq::new(sources.len(), |k: int| spec_source_line(k as nat, display_name(name_view(sources[k]))))
}

/// The name shown for an endpoint whose display name is `name`.
pub fn get_display_name(name: Option<String>) -> (shown: String)
    ensures
        shown@ == display_name(name_view(name)),
{
    match name {
        Some(n) => n,
        None => String::from_str("[Unknown Display Name]"),
    }
}

/// The line that lists source `i` under `name`.
pub fn source_line(i: usize, name: &str) -> (line: String)
    ensures
        line@ == spec_source_line(i as nat, name@),
{
    let mut line = String::from_str("[");
    append_decimal(&mut line, i);
    line.append("] ");
    line.append(name);
    line
}

/// The endpoint listing for `destinations` destinations and the sources
/// whose display names are `sources`.
pub fn endpoint_report_lines(destinations: usize, sources: &Vec<Option<String>>) -> (lines: Vec<String>)
    requires
        3 + destinations + sources@.len() <= usize::MAX,
    ensures
        lines@.map_values(|l: String| l@) =~= endpoint_report(destinations as nat, sources@),
{
    let mut lines: Vec<String> = Vec::new();
    lines.push(String::from_str("System destinations:"));
    let mut d: usize = 0;
    while d < destinations
        invariant
            d <= destinations,
            lines@.map_values(|l: String| l@) =~= seq!["System destinations:"@] + Seq::new(
                d as nat,
                |k: int| "System sources:"@,
            ),
        decreases destinations - d,
    {
        let ghost before = lines@;
        let line = String::from_str("System sources:");
        lines.push(line);
        assert(lines@.map_values(|l: String| l@) =~= before.map_values(|l: String| l@).push(line@));
        d = d + 1;
    }
    lines.push(String::new());
    lines.push(String::from_str("System sources:"));
    let ghost head = lines@.map_values(|l: String| l@);
    let mut k: usize = 0;
    while k < sources.len()
        invariant
            k <= sources@.len(),
            head == seq!["System destinations:"@] + Seq::new(destinations as nat, |k: int| "System sources:"@)
                + seq![Seq::empty(), "System sources:"@],
            lines@.map_values(|l: String| l@) =~= head + Seq::new(
                k as nat,
                |m: int| spec_source_line(m as nat, display_name(name_view(sources@[m]))),
            ),
        decreases sources@.len() - k,
    {
        let name = match &sources[k] {
            Some(n) => get_display_name(Some(n.clone())),
            None => get_display_name(None),
        };
        let ghost before = lines@;
        let line = source_line(k, name.as_str());
        lines.push(line);
        assert(lines@.map_values(|l: String| l@) =~= before.map_values(|l: String| l@).push(line@));
        k = k + 1;
    }
    lines
}

/// The port chosen as the default output device: the first one, when
/// there is any.
pub fn first_device(port_count: usize) -> (choice: Option<usize>)
    ensures
        choice == (if port_count == 0 { None } else { Some(0usize) }),
{
    if port_count == 0 {
        None
    } else {
        Some(0)
    }
}

/// `"Chose MIDI device {name}"`.
pub fn chosen_device_line(name: &str) -> (line: String)
    ensures
        line@ == "Chose MIDI device "@ + name@,
{
    let mut line = String::from_str("Chose MIDI device ");
    line.append(name);
    line
}

/// The key and the text of the message sent to a subscriber.
pub fn subscription_message() -> (entry: (String, String))
    ensures
        entry.0@ == "message"@,
        entry.1@ == "You recieved this message from Rust."@,
{
    (String::from_str("message"), String::from_str("You recieved this message from Rust."))
}

/// A name lookup prints as `Debug` prints a `Result`: `Ok("name")` with the
/// name quoted, or `Err(` and the error's variant name and `)`.
pub proof fn lemma_lookup_debug_cases(r: Result<String, PortNameError>)
    ensures
        lookup_debug(result_view(r)) == match r {
            Ok(name) => "Ok("@ + debug_quoted(name@) + ")"@,
            Err(PortNameError::PortNumberOutOfRange) => "Err(PortNumberOutOfRange)"@,
            Err(PortNameError::InvalidPort) => "Err(InvalidPort)"@,
            Err(PortNameError::CannotRetrievePortName) => "Err(CannotRetrievePortName)"@,
        },
{
    reveal_strlit("Err(");
    reveal_strlit(")");
    reveal_strlit("PortNumberOutOfRange");
    reveal_strlit("InvalidPort");
    reveal_strlit("CannotRetrievePortName");
    reveal_strlit("Err(PortNumberOutOfRange)");
    reveal_strlit("Err(InvalidPort)");
    reveal_strlit("Err(CannotRetrievePortName)");
    match r {
        Ok(_) => {},
        Err(PortNameError::PortNumberOutOfRange) => {
            assert("Err("@ + "PortNumberOutOfRange"@ + ")"@ =~= "Err(PortNumberOutOfRange)"@);
        },
        Err(PortNameError::InvalidPort) => {
            assert("Err("@ + "InvalidPort"@ + ")"@ =~= "Err(InvalidPort)"@);
        },
        Err(PortNameError::CannotRetrievePortName) => {
            assert("Err("@ + "CannotRetrievePortName"@ + ")"@ =~= "Err(CannotRetrievePortName)"@);
        },
    }
}

/// Each port's block of three lines is built from that port's own probe:
/// line 3k lists port k under the quoted name read for it (or the
/// placeholder), lines 3k+1 and 3k+2 show port k's two further reads, as
/// `Debug` prints them, and whether each failed; the third ends with a
/// blank line.
pub proof fn lemma_probe_lines_per_port(probes: Seq<PortProbe>)
    ensures
        all_probe_lines(probes).len() == 3 * probes.len(),
        forall|k: int|
            0 <= k < probes.len() ==> #[trigger] all_probe_lines(probes)[3 * k] =~= "\t"@ + decimal(k as nat)
                + "\t "@ + debug_quoted(
                match probes[k].listed {
                    Ok(name) => name@,
                    Err(_) => "No device name given"@,
                },
            ) + "\r"@,
        forall|k: int|
            0 <= k < probes.len() ==> #[trigger] all_probe_lines(probes)[3 * k + 1] =~= "\t"@ + decimal(
                k as nat,
            ) + " with name "@ + lookup_debug(result_view(probes[k].by_index)) + " has an error: "@ + (if probes[k].by_index_failed {
                "true"@
            } else {
                "false"@
            }) + "\r"@,
        forall|k: int|
            0 <= k < probes.len() ==> #[trigger] all_probe_lines(probes)[3 * k + 2] =~= "\t"@ + decimal(
                k as nat,
            ) + " with name "@ + lookup_debug(result_view(probes[k].by_item)) + " has an error: "@ + (if probes[k].by_item_failed {
                "true"@
            } else {
                "false"@
            }) + "\r\n"@,
{
    assert(bool_text(true) =~= "true"@) by {
        reveal_strlit("true");
    }
    assert(bool_text(false) =~= "false"@) by {
        reveal_strlit("false");
    }
    assert forall|k: int| 0 <= k < probes.len() implies #[trigger] all_probe_lines(probes)[3 * k]
        =~= "\t"@ + decimal(k as nat) + "\t "@ + debug_quoted(
        match probes[k].listed {
            Ok(name) => name@,
            Err(_) => "No device name given"@,
        },
    ) + "\r"@ by {
        assert((3 * k) / 3 == k && (3 * k) % 3 == 0);
    }
    assert forall|k: int| 0 <= k < probes.len() implies #[trigger] all_probe_lines(probes)[3 * k + 1]
        =~= "\t"@ + decimal(k as nat) + " with name "@ + lookup_debug(result_view(probes[k].by_index))
        + " has an error: "@ + (if probes[k].by_index_failed {
        "true"@
    } else {
        "false"@
    }) + "\r"@ by {
        assert((3 * k + 1) / 3 == k && (3 * k + 1) % 3 == 1);
    }
    assert forall|k: int| 0 <= k < probes.len() implies #[trigger] all_probe_lines(probes)[3 * k + 2]
        =~= "\t"@ + decimal(k as nat) + " with name "@ + lookup_debug(result_view(probes[k].by_item))
        + " has an error: "@ + (if probes[k].by_item_failed {
        "true"@
    } else {
        "false"@
    }) + "\r\n"@ by {
        assert((3 * k + 2) / 3 == k && (3 * k + 2) % 3 == 2);
    }
}

/// The probe report: the output heading (giving `output_count`), then the
/// outputs' blocks in order, then the input heading (giving `output_count`
/// again), then the inputs' blocks in order.
pub proof fn lemma_probe_report_layout(output_count: nat, outputs: Seq<PortProbe>, inputs: Seq<PortProbe>)
    ensures
        probe_report(output_count, outputs, inputs).len() == 2 + 3 * outputs.len() + 3 * inputs.len(),
        probe_report(output_count, outputs, inputs)[0] == "\n"@ + decimal(output_count)
            + " MIDI output ports:\r"@,
        forall|i: int|
            0 <= i < 3 * outputs.len() ==> #[trigger] probe_report(output_count, outputs, inputs)[1 + i]
                == all_probe_lines(outputs)[i],
        probe_report(output_count, outputs, inputs)[1 + 3 * outputs.len() as int] == "\n\r"@ + decimal(
            output_count,
        ) + " MIDI input ports:\r"@,
        forall|i: int|
            0 <= i < 3 * inputs.len() ==> #[trigger] probe_report(output_count, outputs, inputs)[2 + 3
                * outputs.len() + i] == all_probe_lines(inputs)[i],
{
    lemma_probe_lines_per_port(outputs);
    lemma_probe_lines_per_port(inputs);
}

/// The endpoint listing: the destinations heading, one sources heading per
/// destination, an empty line, the sources heading, then source k listed as
/// `[k] name` under its own display name (or "[Unknown Display Name]").
pub proof fn lemma_endpoint_report_layout(destinations: nat, sources: Seq<Option<String>>)
    ensures
        endpoint_report(destinations, sources).len() == 3 + destinations + sources.len(),
        endpoint_report(destinations, sources)[0] == "System destinations:"@,
        forall|d: int|
            1 <= d <= destinations ==> #[trigger] endpoint_report(destinations, sources)[d]
                == "System sources:"@,
        endpoint_report(destinations, sources)[destinations as int + 1] == Seq::<char>::empty(),
        endpoint_report(destinations, sources)[destinations as int + 2] == "System sources:"@,
        forall|k: int|
            0 <= k < sources.len() ==> #[trigger] endpoint_report(destinations, sources)[3 + destinations
                + k] == "["@ + decimal(k as nat) + "] "@ + match sources[k] {
                Some(name) => name@,
                None => "[Unknown Display Name]"@,
            },
{
}

} // verus!
