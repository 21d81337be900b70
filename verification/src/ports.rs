//! The ports the bridge reports: their direction, name and number.

use vstd::prelude::*;
use crate::text::{decimal, append_decimal};

verus! {

/// Whether a port, or a client, receives MIDI or sends it.
#[derive(Clone, Copy, Debug, PartialEq, Eq, Structural)]
pub enum Direction {
    Input,
    Output,
}

/// A port as the bridge lists it: its direction, its name, and its number
/// among the ports of that direction.
#[derive(Debug)]
pub struct MidiPort {
    pub direction: Direction,
    pub name: String,
    pub num: usize,
}

/// How many input and how many output ports there are.
#[derive(Clone, Copy, Debug, PartialEq, Eq, Structural)]
pub struct NumPorts {
    pub input: usize,
    pub output: usize,
}

/// The name listed for a port whose name could not be read.
pub open spec fn unnamed_port() -> Seq<char> {
    "No device name given"@
}

/// The name listed for a port: its name when it could be read, else the
/// placeholder.
pub open spec fn listed_name(lookup: Option<Seq<char>>) -> Seq<char> {
    match lookup {
        Some(name) => name,
        None => unnamed_port(),
    }
}

/// A looked-up name, taken by its characters.
pub open spec fn lookup_view(lookup: Option<String>) -> Option<Seq<char>> {
    match lookup {
        Some(name) => Some(name@),
        None => None,
    }
}

/// The `k`-th entry of the listing of `inputs` then `outputs`, by what it holds.
pub open spec fn listed_entry(
    inputs: Seq<Option<String>>,
    outputs: Seq<Option<String>>,
    k: int,
) -> (Direction, Seq<char>, int) {
    if k < inputs.len() {
        (Direction::Input, listed_name(lookup_view(inputs[k])), k)
    } else {
        (Direction::Output, listed_name(lookup_view(outputs[k - inputs.len()])), k - inputs.len())
    }
}

/// A port entry, by what it holds.
pub open spec fn entry_view(p: MidiPort) -> (Direction, Seq<char>, int) {
    (p.direction, p.name@, p.num as int)
}

/// The name to list for a port: the name read from the system, or
/// "No device name given" when it could not be read.
pub fn port_name_or_default(lookup: Option<String>) -> (name: String)
    ensures
        name@ == listed_name(lookup_view(lookup)),
        lookup matches Some(n) ==> name@ == n@,
        lookup is None ==> name@ == "No device name given"@,
{
    match lookup {
        Some(name) => name,
        None => String::from_str("No device name given"),
    }
}

/// A copy of a looked-up name.
fn copy_lookup(lookup: &Option<String>) -> (copy: Option<String>)
    ensures
        lookup_view(copy) == lookup_view(*lookup),
{
    match lookup {
        Some(name) => Some(name.clone()),
        None => None,
    }
}

/// Lists every port: first the input ports, numbered from 0 in the order
/// given, then the output ports, numbered from 0 again. `inputs` and
/// `outputs` hold each port's name as read from the system, `None` where it
/// could not be read.
pub fn list_ports(inputs: &Vec<Option<String>>, outputs: &Vec<Option<String>>) -> (ports: Vec<MidiPort>)
    requires
        inputs@.len() + outputs@.len() <= usize::MAX,
    ensures
        ports@.len() == inputs@.len() + outputs@.len(),
        forall|k: int|
            0 <= k < ports@.len() ==> entry_view(#[trigger] ports@[k]) == listed_entry(
                inputs@,
                outputs@,
                k,
            ),
        forall|k: int|
            0 <= k < inputs@.len() ==> {
                &&& (#[trigger] ports@[k]).direction == Direction::Input
                &&& ports@[k].num == k
                &&& ports@[k].name@ == match inputs@[k] {
                    Some(name) => name@,
                    None => "No device name given"@,
                }
            },
        forall|j: int|
            0 <= j < outputs@.len() ==> {
                &&& (#[trigger] ports@[inputs@.len() + j]).direction == Direction::Output
                &&& ports@[inputs@.len() + j].num == j
                &&& ports@[inputs@.len() + j].name@ == match outputs@[j] {
                    Some(name) => name@,
                    None => "No device name given"@,
                }
            },
{
    let mut ports: Vec<MidiPort> = Vec::new();
    let n_in = inputs.len();
    let n_out = outputs.len();
    let mut i: usize = 0;
    while i < n_in
        invariant
            n_in == inputs@.len(),
            i <= n_in,
            ports@.len() == i,
            forall|k: int|
                0 <= k < i ==> entry_view(#[trigger] ports@[k]) == listed_entry(inputs@, outputs@, k),
        decreases n_in - i,
    {
        let name = port_name_or_default(copy_lookup(&inputs[i]));
        ports.push(MidiPort { direction: Direction::Input, name, num: i });
        i = i + 1;
    }
    let mut j: usize = 0;
    while j < n_out
        invariant
            n_in == inputs@.len(),
            n_out == outputs@.len(),
            n_in + n_out <= usize::MAX,
            j <= n_out,
            ports@.len() == n_in + j,
            forall|k: int|
                0 <= k < n_in + j ==> entry_view(#[trigger] ports@[k]) == listed_entry(inputs@, outputs@, k),
        decreases n_out - j,
    {
        let name = port_name_or_default(copy_lookup(&outputs[j]));
        ports.push(MidiPort { direction: Direction::Output, name, num: j });
        j = j + 1;
    }
    proof {
        lemma_listing_positions(inputs@, outputs@);
        assert forall|j: int| 0 <= j < outputs@.len() implies #[trigger] entry_view(ports@[inputs@.len() + j])
            == listed_entry(inputs@, outputs@, inputs@.len() + j) by {}
    }
    ports
}

/// The port counts, as the system reports them.
pub fn count_ports(input: usize, output: usize) -> (counts: NumPorts)
    ensures
        counts == (NumPorts { input, output }),
{
    NumPorts { input, output }
}

/// The line printed before listing the input ports: `"\nMidi input ports: {n}\n\r"`.
pub fn input_count_line(n: usize) -> (line: String)
    ensures
        line@ == "\nMidi input ports: "@ + decimal(n as nat) + "\n\r"@,
{
    let mut line = String::from_str("\nMidi input ports: ");
    append_decimal(&mut line, n);
    line.append("\n\r");
    line
}

/// The line printed before listing the output ports: `"Midi output ports: {n}\n\r"`.
pub fn output_count_line(n: usize) -> (line: String)
    ensures
        line@ == "Midi output ports: "@ + decimal(n as nat) + "\n\r"@,
{
    let mut line = String::from_str("Midi output ports: ");
    append_decimal(&mut line, n);
    line.append("\n\r");
    line
}

/// Where each port lands in a listing: the input read k-th is entry k,
/// numbered k, under the name read for it; the output read j-th is entry
/// `inputs.len() + j`, numbered j, under the name read for it; a port whose
/// name could not be read is listed as "No device name given".
pub proof fn lemma_listing_positions(inputs: Seq<Option<String>>, outputs: Seq<Option<String>>)
    ensures
        forall|k: int|
            0 <= k < inputs.len() ==> #[trigger] listed_entry(inputs, outputs, k) == (
                Direction::Input,
                match inputs[k] {
                    Some(name) => name@,
                    None => "No device name given"@,
                },
                k,
            ),
        forall|j: int|
            0 <= j < outputs.len() ==> #[trigger] listed_entry(inputs, outputs, inputs.len() + j) == (
                Direction::Output,
                match outputs[j] {
                    Some(name) => name@,
                    None => "No device name given"@,
                },
                j,
            ),
{
}

/// The number of entries of `ports` in direction `d`.
pub open spec fn count_direction(ports: Seq<(Direction, Seq<char>, int)>, d: Direction) -> int
    decreases ports.len(),
{
    if ports.len() == 0 {
        0
    } else {
        count_direction(ports.drop_last(), d) + if ports.last().0 == d { 1int } else { 0int }
    }
}

/// Listing and counting agree: a listing made from `inputs` and `outputs`
/// holds as many input entries and as many output entries as `count_ports`
/// reports for those ports.
pub proof fn lemma_listing_matches_counts(
    inputs: Seq<Option<String>>,
    outputs: Seq<Option<String>>,
    listing: Seq<(Direction, Seq<char>, int)>,
)
    requires
        listing.len() == inputs.len() + outputs.len(),
        forall|k: int| 0 <= k < listing.len() ==> #[trigger] listing[k] == listed_entry(inputs, outputs, k),
    ensures
        count_direction(listing, Direction::Input) == inputs.len(),
        count_direction(listing, Direction::Output) == outputs.len(),
{
    lemma_count_prefix(inputs, outputs, listing, listing.len() as int);
    assert(listing.take(listing.len() as int) =~= listing);
}

proof fn lemma_count_prefix(
    inputs: Seq<Option<String>>,
    outputs: Seq<Option<String>>,
    listing: Seq<(Direction, Seq<char>, int)>,
    m: int,
)
    requires
        0 <= m <= listing.len(),
        listing.len() == inputs.len() + outputs.len(),
        forall|k: int| 0 <= k < listing.len() ==> #[trigger] listing[k] == listed_entry(inputs, outputs, k),
    ensures
        count_direction(listing.take(m), Direction::Input) == if m < inputs.len() { m } else { inputs.len() as int },
        count_direction(listing.take(m), Direction::Output) == if m < inputs.len() { 0 } else { m - inputs.len() },
    decreases m,
{
    if m > 0 {
        lemma_count_prefix(inputs, outputs, listing, m - 1);
        assert(listing.take(m).drop_last() =~= listing.take(m - 1));
        assert(listing.take(m).last() == listing[m - 1]);
    } else {
        assert(listing.take(m) =~= Seq::<(Direction, Seq<char>, int)>::empty());
    }
}

} // verus!
