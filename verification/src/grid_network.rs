//! The passive network between the plates of V1 and the grid of V2A.
//!
//! Both volume pots are wired backwards: the signal enters at the wiper and
//! leaves at the ungrounded end of the track, which is V2A's grid itself. The
//! tone pot runs from the bright cap, past the grid at its wiper, to the tone
//! cap. There are no mixing resistors: the two channels and the tone control
//! meet at the grid.

use vstd::prelude::*;

verus! {

/// The coupling capacitor behind each plate of V1, in picofarads.
pub const COUPLING_CAP_PF: u32 = 100_000;

/// The track of each volume pot, in ohms.
pub const VOLUME_POT_OHMS: u32 = 1_000_000;

/// The treble bypass from the Bright input to the tone pot, in picofarads.
pub const BRIGHT_CAP_PF: u32 = 500;

/// The track of the tone pot, in ohms.
pub const TONE_POT_OHMS: u32 = 1_000_000;

/// The capacitor that the tone pot shunts treble to ground through, in
/// picofarads.
pub const TONE_CAP_PF: u32 = 5_000;

/// The nodes of the network.
#[derive(Debug, Clone, Copy, PartialEq, Eq, Structural)]
pub enum GridNode {
    Ground,
    V1aPlate,
    V1bPlate,
    V2aGrid,
    V1aAfterSource,
    NormIn,
    V1bAfterSource,
    BrightIn,
    ToneTop,
    ToneBottom,
}

impl GridNode {
    pub open spec fn name_text(self) -> Seq<char> {
        match self {
            GridNode::Ground => "gnd"@,
            GridNode::V1aPlate => "v1a_plate"@,
            GridNode::V1bPlate => "v1b_plate"@,
            GridNode::V2aGrid => "v2a_grid"@,
            GridNode::V1aAfterSource => "v1a_after_src"@,
            GridNode::NormIn => "norm_in"@,
            GridNode::V1bAfterSource => "v1b_after_src"@,
            GridNode::BrightIn => "bright_in"@,
            GridNode::ToneTop => "tone_top"@,
            GridNode::ToneBottom => "tone_bottom"@,
        }
    }

    /// The name the circuit solver knows the node by.
    pub fn name(self) -> (text: &'static str)
        ensures
            text@ == self.name_text(),
    {
        match self {
            GridNode::Ground => "gnd",
            GridNode::V1aPlate => "v1a_plate",
            GridNode::V1bPlate => "v1b_plate",
            GridNode::V2aGrid => "v2a_grid",
            GridNode::V1aAfterSource => "v1a_after_src",
            GridNode::NormIn => "norm_in",
            GridNode::V1bAfterSource => "v1b_after_src",
            GridNode::BrightIn => "bright_in",
            GridNode::ToneTop => "tone_top",
            GridNode::ToneBottom => "tone_bottom",
        }
    }
}

/// A capacitance that the circuit print gives, or one that the tube model
/// solved for.
#[derive(Debug, Clone, Copy)]
pub enum Capacitance<V> {
    Picofarads(u32),
    Solved(V),
}

/// One element of the network. `V` is the type of the values that come from
/// the tube model.
#[derive(Debug, Clone, Copy)]
pub enum GridElement<V> {
    Resistor { a: GridNode, b: GridNode, ohms: V },
    Capacitor { a: GridNode, b: GridNode, value: Capacitance<V> },
    Pot { top: GridNode, wiper: GridNode, bottom: GridNode, track_ohms: u32, position_percent: u8 },
    Conduction { grid: GridNode, perveance: V, contact_potential: V, cathode_voltage: V },
}

/// The network as a list of elements, the nodes that are driven, in driver
/// order, and the node whose voltage is the output.
#[derive(Debug, Clone)]
pub struct GridNetlist<V> {
    pub elements: Vec<GridElement<V>>,
    pub drivers: Vec<GridNode>,
    pub output: GridNode,
}

/// A pot of the network: its place in the list of elements.
#[derive(Debug, Clone, Copy, PartialEq, Eq, Structural)]
pub struct PotHandle {
    pub element: usize,
}

/// What the network needs to know of V2A: its effective Miller capacitance
/// into the plate load, and the diode that its grid forms with the cathode.
#[derive(Debug, Clone, Copy)]
pub struct GridTube<V> {
    pub miller_capacitance: V,
    pub grid_perveance: V,
    pub contact_potential: V,
    pub cathode_voltage: V,
}

/// A volume and tone network: a circuit and the handles of its three pots. The
/// circuit is a netlist, or what a solver made of one.
#[derive(Debug, Clone)]
pub struct V2aGridNetwork<C> {
    pub circuit: C,
    pub norm_volume: PotHandle,
    pub bright_volume: PotHandle,
    pub tone: PotHandle,
}

/// The elements of the network in the order in which they are stamped: the
/// Normal branch, the Bright branch, the tone control, and what V2A's grid
/// adds.
pub open spec fn grid_elements<V>(source_z: V, tube: GridTube<V>) -> Seq<GridElement<V>> {
    seq![
        GridElement::Resistor { a: GridNode::V1aPlate, b: GridNode::V1aAfterSource, ohms: source_z },
        GridElement::Capacitor {
            a: GridNode::V1aAfterSource,
            b: GridNode::NormIn,
            value: Capacitance::Picofarads(COUPLING_CAP_PF),
        },
        GridElement::Pot {
            top: GridNode::V2aGrid,
            wiper: GridNode::NormIn,
            bottom: GridNode::Ground,
            track_ohms: VOLUME_POT_OHMS,
            position_percent: 100,
        },
        GridElement::Resistor { a: GridNode::V1bPlate, b: GridNode::V1bAfterSource, ohms: source_z },
        GridElement::Capacitor {
            a: GridNode::V1bAfterSource,
            b: GridNode::BrightIn,
            value: Capacitance::Picofarads(COUPLING_CAP_PF),
        },
        GridElement::Pot {
            top: GridNode::V2aGrid,
            wiper: GridNode::BrightIn,
            bottom: GridNode::Ground,
            track_ohms: VOLUME_POT_OHMS,
            position_percent: 0,
        },
        GridElement::Capacitor {
            a: GridNode::BrightIn,
            b: GridNode::ToneTop,
            value: Capacitance::Picofarads(BRIGHT_CAP_PF),
        },
        GridElement::Pot {
            top: GridNode::ToneTop,
            wiper: GridNode::V2aGrid,
            bottom: GridNode::ToneBottom,
            track_ohms: TONE_POT_OHMS,
            position_percent: 100,
        },
        GridElement::Capacitor {
            a: GridNode::ToneBottom,
            b: GridNode::Ground,
            value: Capacitance::Picofarads(TONE_CAP_PF),
        },
        GridElement::Capacitor {
            a: GridNode::V2aGrid,
            b: GridNode::Ground,
            value: Capacitance::Solved(tube.miller_capacitance),
        },
        GridElement::Conduction {
            grid: GridNode::V2aGrid,
            perveance: tube.grid_perveance,
            contact_potential: tube.contact_potential,
            cathode_voltage: tube.cathode_voltage,
        },
    ]
}

/// The drivers in the order in which their voltages are handed over.
pub open spec fn grid_drivers() -> Seq<GridNode> {
    seq![GridNode::V1aPlate, GridNode::V1bPlate]
}

impl<V: Copy> V2aGridNetwork<GridNetlist<V>> {
    /// The network in front of V2A, behind V1 plates of a source impedance.
    pub open spec fn is_grid_network(self, v1_source_z: V, v2a: GridTube<V>) -> bool {
        &&& self.circuit.elements@ == grid_elements(v1_source_z, v2a)
        &&& self.circuit.drivers@ == grid_drivers()
        &&& self.circuit.output == GridNode::V2aGrid
        &&& self.norm_volume.element == 2
        &&& self.bright_volume.element == 5
        &&& self.tone.element == 7
    }

    /// The network in front of V2A, behind V1 plates of source impedance
    /// `v1_source_z`.
    pub fn new(v1_source_z: V, v2a: GridTube<V>) -> (net: Self)
        ensures
            net.is_grid_network(v1_source_z, v2a),
    {
        let mut elements: Vec<GridElement<V>> = Vec::new();

        elements.push(
            GridElement::Resistor {
                a: GridNode::V1aPlate,
                b: GridNode::V1aAfterSource,
                ohms: v1_source_z,
            },
        );
        elements.push(
            GridElement::Capacitor {
                a: GridNode::V1aAfterSource,
                b: GridNode::NormIn,
                value: Capacitance::Picofarads(COUPLING_CAP_PF),
            },
        );
        let norm_volume = PotHandle { element: elements.len() };
        elements.push(
            GridElement::Pot {
                top: GridNode::V2aGrid,
                wiper: GridNode::NormIn,
                bottom: GridNode::Ground,
                track_ohms: VOLUME_POT_OHMS,
                position_percent: 100,
            },
        );

        elements.push(
            GridElement::Resistor {
                a: GridNode::V1bPlate,
                b: GridNode::V1bAfterSource,
                ohms: v1_source_z,
            },
        );
        elements.push(
            GridElement::Capacitor {
                a: GridNode::V1bAfterSource,
                b: GridNode::BrightIn,
                value: Capacitance::Picofarads(COUPLING_CAP_PF),
            },
        );
        let bright_volume = PotHandle { element: elements.len() };
        elements.push(
            GridElement::Pot {
                top: GridNode::V2aGrid,
                wiper: GridNode::BrightIn,
                bottom: GridNode::Ground,
                track_ohms: VOLUME_POT_OHMS,
                position_percent: 0,
            },
        );

        elements.push(
            GridElement::Capacitor {
                a: GridNode::BrightIn,
                b: GridNode::ToneTop,
                value: Capacitance::Picofarads(BRIGHT_CAP_PF),
            },
        );
        let tone = PotHandle { element: elements.len() };
        elements.push(
            GridElement::Pot {
                top: GridNode::ToneTop,
                wiper: GridNode::V2aGrid,
                bottom: GridNode::ToneBottom,
                track_ohms: TONE_POT_OHMS,
                position_percent: 100,
            },
        );
        elements.push(
            GridElement::Capacitor {
                a: GridNode::ToneBottom,
                b: GridNode::Ground,
                value: Capacitance::Picofarads(TONE_CAP_PF),
            },
        );

        elements.push(
            GridElement::Capacitor {
                a: GridNode::V2aGrid,
                b: GridNode::Ground,
                value: Capacitance::Solved(v2a.miller_capacitance),
            },
        );
        elements.push(
            GridElement::Conduction {
                grid: GridNode::V2aGrid,
                perveance: v2a.grid_perveance,
                contact_potential: v2a.contact_potential,
                cathode_voltage: v2a.cathode_voltage,
            },
        );

        let mut drivers: Vec<GridNode> = Vec::new();
        drivers.push(GridNode::V1aPlate);
        drivers.push(GridNode::V1bPlate);

        assert(elements@ =~= grid_elements(v1_source_z, v2a));
        assert(drivers@ =~= grid_drivers());
        let circuit = GridNetlist { elements, drivers, output: GridNode::V2aGrid };
        V2aGridNetwork { circuit, norm_volume, bright_volume, tone }
    }
}

/// The node is a terminal of the element.
pub open spec fn touches<V>(e: GridElement<V>, n: GridNode) -> bool {
    match e {
        GridElement::Resistor { a, b, .. } => n == a || n == b,
        GridElement::Capacitor { a, b, .. } => n == a || n == b,
        GridElement::Pot { top, wiper, bottom, .. } => n == top || n == wiper || n == bottom,
        GridElement::Conduction { grid, .. } => n == grid,
    }
}

/// A steady current can pass between the two nodes through the element: a
/// resistor and the track of a pot carry one, a capacitor does not.
pub open spec fn carries_dc<V>(e: GridElement<V>, m: GridNode, n: GridNode) -> bool {
    match e {
        GridElement::Resistor { .. } => touches(e, m) && touches(e, n),
        GridElement::Pot { .. } => touches(e, m) && touches(e, n),
        _ => false,
    }
}

/// Some element of the list carries a steady current between the two nodes.
pub open spec fn dc_joined<V>(elements: Seq<GridElement<V>>, m: GridNode, n: GridNode) -> bool {
    exists|i: int| 0 <= i < elements.len() && carries_dc(#[trigger] elements[i], m, n)
}

/// A walk from node to node on which every step carries a steady current.
pub open spec fn dc_path<V>(elements: Seq<GridElement<V>>, path: Seq<GridNode>) -> bool {
    &&& path.len() > 0
    &&& forall|i: int|
        0 <= i < path.len() - 1 ==> dc_joined(elements, #[trigger] path[i], path[i + 1])
}

/// The nodes behind the coupling capacitors: the grid's side of the network.
pub open spec fn behind_coupling_caps(n: GridNode) -> bool {
    match n {
        GridNode::V1aPlate | GridNode::V1bPlate => false,
        GridNode::V1aAfterSource | GridNode::V1bAfterSource => false,
        _ => true,
    }
}

proof fn lemma_dc_stays_behind_caps<V>(source_z: V, tube: GridTube<V>, path: Seq<GridNode>)
    requires
        dc_path(grid_elements(source_z, tube), path),
    ensures
        behind_coupling_caps(path[0]) == behind_coupling_caps(path.last()),
    decreases path.len(),
{
    if path.len() > 1 {
        let elements = grid_elements(source_z, tube);
        let shorter = path.drop_last();
        assert forall|i: int| 0 <= i < shorter.len() - 1 implies dc_joined(
            elements,
            #[trigger] shorter[i],
            shorter[i + 1],
        ) by {
            assert(shorter[i] == path[i] && shorter[i + 1] == path[i + 1]);
        }
        lemma_dc_stays_behind_caps(source_z, tube, shorter);
        let k = path.len() - 2;
        assert(dc_joined(elements, path[k], path[k + 1]));
        let i = choose|i: int|
            0 <= i < elements.len() && carries_dc(#[trigger] elements[i], path[k], path[k + 1]);
        assert(carries_dc(elements[i], path[k], path[k + 1]));
        assert(behind_coupling_caps(path[k]) == behind_coupling_caps(path[k + 1]));
    }
}

/// The capacitors keep the plates' steady voltage off V2A's grid: no walk
/// along elements that carry a steady current leads from a driven plate to the
/// grid.
pub proof fn law_network_blocks_dc<V>(source_z: V, tube: GridTube<V>, path: Seq<GridNode>)
    requires
        path.len() > 0,
        grid_drivers().contains(path[0]),
        path.last() == GridNode::V2aGrid,
    ensures
        !dc_path(grid_elements(source_z, tube), path),
{
    if dc_path(grid_elements(source_z, tube), path) {
        lemma_dc_stays_behind_caps(source_z, tube, path);
    }
}

/// The element is a track from V2A's grid to ground.
pub open spec fn is_grid_leak<V>(e: GridElement<V>) -> bool {
    carries_dc(e, GridNode::V2aGrid, GridNode::Ground)
}

/// V2A's grid has the same leak to ground at every setting of the knobs: the
/// whole tracks of the two volume pots, and no other resistor or pot, join the
/// two nodes, and the two tracks in parallel make 500 kilohms.
pub proof fn law_grid_leak_is_constant<V>(source_z: V, tube: GridTube<V>)
    ensures
        forall|i: int|
            0 <= i < grid_elements(source_z, tube).len() ==> (is_grid_leak(
                #[trigger] grid_elements(source_z, tube)[i],
            ) <==> i == 2 || i == 5),
        forall|i: int|
            0 <= i < grid_elements(source_z, tube).len() && is_grid_leak(
                #[trigger] grid_elements(source_z, tube)[i],
            ) ==> (grid_elements(source_z, tube)[i] matches GridElement::Pot {
                top,
                bottom,
                track_ohms,
                ..
            } && top == GridNode::V2aGrid && bottom == GridNode::Ground && track_ohms
                == 1_000_000),
        (VOLUME_POT_OHMS * VOLUME_POT_OHMS) / (VOLUME_POT_OHMS + VOLUME_POT_OHMS) == 500_000,
{
}

/// The channels meet at the grid itself: no fixed resistor of the network
/// touches V2A's grid.
pub proof fn law_no_mixing_resistors<V>(source_z: V, tube: GridTube<V>, i: int)
    requires
        0 <= i < grid_elements(source_z, tube).len(),
        grid_elements(source_z, tube)[i] is Resistor,
    ensures
        !touches(grid_elements(source_z, tube)[i], GridNode::V2aGrid),
{
}

/// The volume pots are wired backwards: of each channel, the coupling
/// capacitor feeds the wiper of that channel's pot and neither end of its
/// track, and the ungrounded end of the track is V2A's grid.
pub proof fn law_volume_pots_are_backwards<V>(source_z: V, tube: GridTube<V>)
    ensures
        ({
            let e = grid_elements(source_z, tube);
            forall|c: int, p: int|
                (c == 1 && p == 2) || (c == 4 && p == 5) ==> ((#[trigger] e[c] matches
                    GridElement::Capacitor { b, .. } && (#[trigger] e[p] matches GridElement::Pot {
                    top,
                    wiper,
                    bottom,
                    ..
                } && wiper == b && top == GridNode::V2aGrid && bottom == GridNode::Ground
                    && wiper != top && wiper != bottom)))
        }),
{
}

/// No node of the network dangles: each one is a terminal of two different
/// elements, or is driven and a terminal of one.
pub proof fn law_no_node_dangles<V>(source_z: V, tube: GridTube<V>, n: GridNode)
    ensures
        ({
            let e = grid_elements(source_z, tube);
            ||| grid_drivers().contains(n) && exists|i: int|
                0 <= i < e.len() && touches(#[trigger] e[i], n)
            ||| exists|i: int, j: int|
                0 <= i < j < e.len() && touches(#[trigger] e[i], n) && touches(#[trigger] e[j], n)
        }),
{
    let e = grid_elements(source_z, tube);
    match n {
        GridNode::V1aPlate => {
            assert(grid_drivers()[0] == n && touches(e[0], n));
        },
        GridNode::V1bPlate => {
            assert(grid_drivers()[1] == n && touches(e[3], n));
        },
        GridNode::Ground => {
            assert(touches(e[2], n) && touches(e[5], n));
        },
        GridNode::V2aGrid => {
            assert(touches(e[2], n) && touches(e[5], n));
        },
        GridNode::V1aAfterSource => {
            assert(touches(e[0], n) && touches(e[1], n));
        },
        GridNode::NormIn => {
            assert(touches(e[1], n) && touches(e[2], n));
        },
        GridNode::V1bAfterSource => {
            assert(touches(e[3], n) && touches(e[4], n));
        },
        GridNode::BrightIn => {
            assert(touches(e[4], n) && touches(e[5], n));
        },
        GridNode::ToneTop => {
            assert(touches(e[6], n) && touches(e[7], n));
        },
        GridNode::ToneBottom => {
            assert(touches(e[7], n) && touches(e[8], n));
        },
    }
}

/// Exchanging the tube in V1 changes the source impedance of the two plates
/// and nothing else in the network.
pub proof fn law_tube_changes_only_source_impedance<V>(
    stock_z: V,
    mod_z: V,
    tube: GridTube<V>,
    i: int,
)
    requires
        0 <= i < grid_elements(stock_z, tube).len(),
    ensures
        grid_elements(stock_z, tube).len() == grid_elements(mod_z, tube).len(),
        match (grid_elements(stock_z, tube)[i], grid_elements(mod_z, tube)[i]) {
            (
                GridElement::Resistor { a, b, ohms },
                GridElement::Resistor { a: a2, b: b2, ohms: ohms2 },
            ) => a == a2 && b == b2 && ohms == stock_z && ohms2 == mod_z,
            (e1, e2) => e1 == e2,
        },
{
}

/// Of V2A's grid the network holds one diode, at the grid, with the perveance,
/// the contact potential and the cathode voltage of the tube, and one
/// capacitor to ground, the tube's Miller capacitance.
pub proof fn law_grid_of_v2a_is_the_tubes<V: Copy>(
    source_z: V,
    tube: GridTube<V>,
    net: V2aGridNetwork<GridNetlist<V>>,
)
    requires
        call_ensures(V2aGridNetwork::<GridNetlist<V>>::new, (source_z, tube), net),
    ensures
        exists|i: int|
            0 <= i < net.circuit.elements@.len() && #[trigger] net.circuit.elements@[i]
                is Conduction,
        forall|i: int, j: int|
            0 <= i < net.circuit.elements@.len() && 0 <= j < net.circuit.elements@.len() && (
            #[trigger] net.circuit.elements@[i]) is Conduction && (
            #[trigger] net.circuit.elements@[j]) is Conduction ==> i == j,
        forall|i: int|
            0 <= i < net.circuit.elements@.len() ==> (#[trigger] net.circuit.elements@[i] matches
                GridElement::Conduction {
                grid,
                perveance,
                contact_potential,
                cathode_voltage,
            } ==> {
                &&& grid == GridNode::V2aGrid
                &&& perveance == tube.grid_perveance
                &&& contact_potential == tube.contact_potential
                &&& cathode_voltage == tube.cathode_voltage
            }),
        exists|i: int|
            0 <= i < net.circuit.elements@.len() && #[trigger] net.circuit.elements@[i] == (
            GridElement::Capacitor {
                a: GridNode::V2aGrid,
                b: GridNode::Ground,
                value: Capacitance::Solved(tube.miller_capacitance),
            }),
        forall|i: int, j: int|
            0 <= i < net.circuit.elements@.len() && 0 <= j < net.circuit.elements@.len() && (
            #[trigger] net.circuit.elements@[i] matches GridElement::Capacitor {
                value: Capacitance::Solved(_),
                ..
            }) && (#[trigger] net.circuit.elements@[j] matches GridElement::Capacitor {
                value: Capacitance::Solved(_),
                ..
            }) ==> i == j,
{
    let e = net.circuit.elements@;
    assert(e[10] is Conduction);
    assert(e[9] is Capacitor);
}

/// Each handle of the network is that of its own pot: the volumes enter at the
/// wiper and leave at V2A's grid, the tone pot has the grid at its wiper. All
/// three tracks have a megohm.
pub proof fn law_handles_belong_to_their_pots<V: Copy>(
    source_z: V,
    tube: GridTube<V>,
    net: V2aGridNetwork<GridNetlist<V>>,
)
    requires
        call_ensures(V2aGridNetwork::<GridNetlist<V>>::new, (source_z, tube), net),
    ensures
        net.norm_volume.element < net.circuit.elements@.len(),
        net.bright_volume.element < net.circuit.elements@.len(),
        net.tone.element < net.circuit.elements@.len(),
        net.circuit.elements@[net.norm_volume.element as int] == (GridElement::Pot::<V> {
            top: GridNode::V2aGrid,
            wiper: GridNode::NormIn,
            bottom: GridNode::Ground,
            track_ohms: 1_000_000,
            position_percent: 100,
        }),
        net.circuit.elements@[net.bright_volume.element as int] == (GridElement::Pot::<V> {
            top: GridNode::V2aGrid,
            wiper: GridNode::BrightIn,
            bottom: GridNode::Ground,
            track_ohms: 1_000_000,
            position_percent: 0,
        }),
        net.circuit.elements@[net.tone.element as int] == (GridElement::Pot::<V> {
            top: GridNode::ToneTop,
            wiper: GridNode::V2aGrid,
            bottom: GridNode::ToneBottom,
            track_ohms: 1_000_000,
            position_percent: 100,
        }),
        forall|i: int|
            0 <= i < net.circuit.elements@.len() && (#[trigger] net.circuit.elements@[i]) is Pot
                ==> i == net.norm_volume.element || i == net.bright_volume.element || i
                == net.tone.element,
{
}

/// The plates are driven in the order of the triodes, each through the source
/// impedance of its tube and through no other resistor, and the grid is what
/// is read.
pub proof fn law_plates_drive_through_source_impedance<V: Copy>(
    source_z: V,
    tube: GridTube<V>,
    net: V2aGridNetwork<GridNetlist<V>>,
)
    requires
        call_ensures(V2aGridNetwork::<GridNetlist<V>>::new, (source_z, tube), net),
    ensures
        net.circuit.drivers@.len() == 2,
        net.circuit.drivers@[0] == GridNode::V1aPlate,
        net.circuit.drivers@[1] == GridNode::V1bPlate,
        net.circuit.output == GridNode::V2aGrid,
        exists|i: int|
            0 <= i < net.circuit.elements@.len() && #[trigger] net.circuit.elements@[i] == (
            GridElement::Resistor {
                a: GridNode::V1aPlate,
                b: GridNode::V1aAfterSource,
                ohms: source_z,
            }),
        exists|i: int|
            0 <= i < net.circuit.elements@.len() && #[trigger] net.circuit.elements@[i] == (
            GridElement::Resistor {
                a: GridNode::V1bPlate,
                b: GridNode::V1bAfterSource,
                ohms: source_z,
            }),
        forall|i: int|
            0 <= i < net.circuit.elements@.len() ==> (#[trigger] net.circuit.elements@[i] matches
                GridElement::Resistor { a, b, ohms } ==> ohms == source_z && (a
                == GridNode::V1aPlate && b == GridNode::V1aAfterSource || a == GridNode::V1bPlate
                && b == GridNode::V1bAfterSource)),
{
    let e = net.circuit.elements@;
    assert(e[0] is Resistor && e[3] is Resistor);
}

/// A capacitance of the network goes by what it joins: 100 nanofarads couple
/// each plate to the wiper of its channel, 500 picofarads bypass treble from
/// the Bright input to the top of the tone pot, and 5 nanofarads shunt it from
/// the bottom of the tone pot to ground. There are four of them.
pub proof fn law_capacitors_go_by_their_place<V: Copy>(
    source_z: V,
    tube: GridTube<V>,
    net: V2aGridNetwork<GridNetlist<V>>,
)
    requires
        call_ensures(V2aGridNetwork::<GridNetlist<V>>::new, (source_z, tube), net),
    ensures
        net.circuit.elements@.len() == 11,
        forall|i: int|
            0 <= i < net.circuit.elements@.len() ==> (#[trigger] net.circuit.elements@[i] matches
                GridElement::Capacitor { a, b, value: Capacitance::Picofarads(pf) } ==> {
                ||| a == GridNode::V1aAfterSource && b == GridNode::NormIn && pf == 100_000
                ||| a == GridNode::V1bAfterSource && b == GridNode::BrightIn && pf == 100_000
                ||| a == GridNode::BrightIn && b == GridNode::ToneTop && pf == 500
                ||| a == GridNode::ToneBottom && b == GridNode::Ground && pf == 5_000
            }),
        forall|i: int, j: int|
            0 <= i < net.circuit.elements@.len() && 0 <= j < net.circuit.elements@.len() && i != j
                ==> #[trigger] net.circuit.elements@[i] != #[trigger] net.circuit.elements@[j],
        exists|i: int, j: int, k: int, l: int|
            0 <= i < j < k < l < net.circuit.elements@.len()
                && #[trigger] net.circuit.elements@[i] is Capacitor
                && #[trigger] net.circuit.elements@[j] is Capacitor
                && #[trigger] net.circuit.elements@[k] is Capacitor
                && #[trigger] net.circuit.elements@[l] is Capacitor
                && net.circuit.elements@[i]->Capacitor_value is Picofarads
                && net.circuit.elements@[j]->Capacitor_value is Picofarads
                && net.circuit.elements@[k]->Capacitor_value is Picofarads
                && net.circuit.elements@[l]->Capacitor_value is Picofarads,
{
    let e = net.circuit.elements@;
    assert(e[1] is Capacitor && e[4] is Capacitor && e[6] is Capacitor && e[8] is Capacitor);
}

/// No two nodes go by the same name.
pub proof fn law_node_names_are_distinct(
    m: GridNode,
    n: GridNode,
    name_m: &'static str,
    name_n: &'static str,
)
    requires
        call_ensures(GridNode::name, (m,), name_m),
        call_ensures(GridNode::name, (n,), name_n),
    ensures
        name_m@ == name_n@ <==> m == n,
{
    reveal_strlit("gnd");
    reveal_strlit("v1a_plate");
    reveal_strlit("v1b_plate");
    reveal_strlit("v2a_grid");
    reveal_strlit("v1a_after_src");
    reveal_strlit("norm_in");
    reveal_strlit("v1b_after_src");
    reveal_strlit("bright_in");
    reveal_strlit("tone_top");
    reveal_strlit("tone_bottom");
    assert("gnd"@.len() == 3 && "norm_in"@.len() == 7 && "tone_bottom"@.len() == 11);
    assert("v1a_plate"@.len() == 9 && "v1b_plate"@.len() == 9 && "bright_in"@.len() == 9);
    assert("v2a_grid"@.len() == 8 && "tone_top"@.len() == 8);
    assert("v1a_after_src"@.len() == 13 && "v1b_after_src"@.len() == 13);
    assert("v1a_plate"@[2] != "v1b_plate"@[2]);
    assert("v1a_plate"@[0] != "bright_in"@[0] && "v1b_plate"@[0] != "bright_in"@[0]);
    assert("v1a_after_src"@[2] != "v1b_after_src"@[2]);
    assert("v2a_grid"@[0] != "tone_top"@[0]);
}

} // verus!
