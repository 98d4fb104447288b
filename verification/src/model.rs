//! The node model: the synapse's state and the rules by which the host's
//! calls change it.
//!
//! The synaptic current itself is floating-point arithmetic and is computed
//! by the caller from the state's fields; the model decides where each value
//! is stored and what each name reads.

use vstd::prelude::*;
use crate::json::{number_member, number_members, parse_payload, payload_numbers};
use crate::ports::{
    find_input_port, find_parameter, input_port_named, input_port_names, is_output_port,
    output_name_bytes, output_port_names, parameter_named, InputPort, Parameter,
    DEFAULT_E_SYN_BITS, DEFAULT_G_FAST_BITS, DEFAULT_S_FAST_BITS, DEFAULT_V_FAST_BITS, ZERO_BITS,
};

verus! {

/// The immutable description of the node class.
pub struct NodeMetadata {
    /// Display name.
    pub name: String,
    /// Tag of the node's computational family.
    pub kind: String,
    /// Each parameter's key with the bit pattern of its default value.
    pub default_vars: Vec<(String, u64)>,
}

/// The state of one synapse. Every signal and parameter is the bit pattern
/// of a double.
#[derive(Clone, Copy, Debug, PartialEq, Eq, Structural)]
pub struct FastChemicalSynapsePlugin {
    /// Identifier given by the host at creation; never interpreted.
    pub id: u64,
    /// Presynaptic potential.
    pub pre: u64,
    /// Postsynaptic potential.
    pub post: u64,
    /// Synaptic current stored by the latest advance.
    pub output: u64,
    /// Maximal conductance.
    pub g_fast: u64,
    /// Reversal potential.
    pub e_syn: u64,
    /// Slope of the gating sigmoid.
    pub s_fast: u64,
    /// Half-activation potential of the gating sigmoid.
    pub v_fast: u64,
}

impl NodeMetadata {
    /// Whether this is the description that every synapse declares: the
    /// display name, the kind tag, and the four parameters in declaration
    /// order, each with its default.
    pub open spec fn is_declared(&self) -> bool {
        &&& self.name@ == "Fast Chemical Synapse"@
        &&& self.kind@ == "fast_chemical_synapse"@
        &&& self.default_vars@.len() == 4
        &&& self.default_vars@[0].0@ == Parameter::GFast.key_spec()
        &&& self.default_vars@[0].1 == Parameter::GFast.default_bits_spec()
        &&& self.default_vars@[1].0@ == Parameter::ESyn.key_spec()
        &&& self.default_vars@[1].1 == Parameter::ESyn.default_bits_spec()
        &&& self.default_vars@[2].0@ == Parameter::SFast.key_spec()
        &&& self.default_vars@[2].1 == Parameter::SFast.default_bits_spec()
        &&& self.default_vars@[3].0@ == Parameter::VFast.key_spec()
        &&& self.default_vars@[3].1 == Parameter::VFast.default_bits_spec()
    }

    /// The description that every synapse declares.
    pub fn new() -> (meta: Self)
        ensures
            meta.is_declared(),
    {
        let mut default_vars: Vec<(String, u64)> = Vec::new();
        default_vars.push((Parameter::GFast.key().to_owned(), Parameter::GFast.default_bits()));
        default_vars.push((Parameter::ESyn.key().to_owned(), Parameter::ESyn.default_bits()));
        default_vars.push((Parameter::SFast.key().to_owned(), Parameter::SFast.default_bits()));
        default_vars.push((Parameter::VFast.key().to_owned(), Parameter::VFast.default_bits()));
        NodeMetadata {
            name: "Fast Chemical Synapse".to_owned(),
            kind: "fast_chemical_synapse".to_owned(),
            default_vars,
        }
    }
}

/// What the synaptic current of one tick is computed from: the inputs and
/// parameters as they stand when the tick is advanced.
#[derive(Clone, Copy, Debug, PartialEq, Eq, Structural)]
pub struct Operands {
    /// Presynaptic potential.
    pub pre: u64,
    /// Postsynaptic potential.
    pub post: u64,
    /// Maximal conductance.
    pub g_fast: u64,
    /// Reversal potential.
    pub e_syn: u64,
    /// Slope of the gating sigmoid.
    pub s_fast: u64,
    /// Half-activation potential of the gating sigmoid.
    pub v_fast: u64,
}

/// The value stored under a key, if there is one.
pub open spec fn member(numbers: Map<Seq<char>, u64>, key: Seq<char>) -> Option<u64> {
    if numbers.contains_key(key) {
        Some(numbers[key])
    } else {
        None
    }
}

/// The new value where there is one, the current value otherwise.
pub open spec fn overridden(current: u64, update: Option<u64>) -> u64 {
    match update {
        Some(bits) => bits,
        None => current,
    }
}

impl FastChemicalSynapsePlugin {
    /// The state of a freshly constructed synapse.
    pub open spec fn initial(id: u64) -> Self {
        FastChemicalSynapsePlugin {
            id,
            pre: ZERO_BITS,
            post: ZERO_BITS,
            output: ZERO_BITS,
            g_fast: DEFAULT_G_FAST_BITS,
            e_syn: DEFAULT_E_SYN_BITS,
            s_fast: DEFAULT_S_FAST_BITS,
            v_fast: DEFAULT_V_FAST_BITS,
        }
    }

    /// The current value of a parameter.
    pub open spec fn parameter_spec(self, parameter: Parameter) -> u64 {
        match parameter {
            Parameter::GFast => self.g_fast,
            Parameter::ESyn => self.e_syn,
            Parameter::SFast => self.s_fast,
            Parameter::VFast => self.v_fast,
        }
    }

    /// The current value of an input.
    pub open spec fn input_spec(self, port: InputPort) -> u64 {
        match port {
            InputPort::Pre => self.pre,
            InputPort::Post => self.post,
        }
    }

    /// The state with one input overwritten.
    pub open spec fn with_input(self, port: InputPort, bits: u64) -> Self {
        match port {
            InputPort::Pre => FastChemicalSynapsePlugin { pre: bits, ..self },
            InputPort::Post => FastChemicalSynapsePlugin { post: bits, ..self },
        }
    }

    /// The state after the host wrote `bits` under `name`.
    pub open spec fn with_input_named(self, name: Seq<u8>, bits: u64) -> Self {
        match input_port_named(name) {
            Some(port) => self.with_input(port, bits),
            None => self,
        }
    }

    /// The state with one parameter overwritten.
    pub open spec fn with_parameter(self, parameter: Parameter, bits: u64) -> Self {
        match parameter {
            Parameter::GFast => FastChemicalSynapsePlugin { g_fast: bits, ..self },
            Parameter::ESyn => FastChemicalSynapsePlugin { e_syn: bits, ..self },
            Parameter::SFast => FastChemicalSynapsePlugin { s_fast: bits, ..self },
            Parameter::VFast => FastChemicalSynapsePlugin { v_fast: bits, ..self },
        }
    }

    /// The state after the host set the parameter called `name`.
    pub open spec fn with_parameter_named(self, name: Seq<u8>, bits: u64) -> Self {
        match parameter_named(name) {
            Some(parameter) => self.with_parameter(parameter, bits),
            None => self,
        }
    }

    /// The state with each parameter overwritten for which a value is given.
    pub open spec fn with_overrides(
        self,
        g_fast: Option<u64>,
        e_syn: Option<u64>,
        s_fast: Option<u64>,
        v_fast: Option<u64>,
    ) -> Self {
        FastChemicalSynapsePlugin {
            g_fast: overridden(self.g_fast, g_fast),
            e_syn: overridden(self.e_syn, e_syn),
            s_fast: overridden(self.s_fast, s_fast),
            v_fast: overridden(self.v_fast, v_fast),
            ..self
        }
    }

    /// The state after a configuration object with these numeric members:
    /// each recognised key overwrites its parameter, every other key is
    /// ignored.
    pub open spec fn configured(self, numbers: Map<Seq<char>, u64>) -> Self {
        self.with_overrides(
            member(numbers, Parameter::GFast.key_spec()),
            member(numbers, Parameter::ESyn.key_spec()),
            member(numbers, Parameter::SFast.key_spec()),
            member(numbers, Parameter::VFast.key_spec()),
        )
    }

    /// The state after a configuration payload: configured where the payload
    /// parses, unchanged where it does not.
    pub open spec fn with_payload(self, numbers: Option<Map<Seq<char>, u64>>) -> Self {
        match numbers {
            Some(numbers) => self.configured(numbers),
            None => self,
        }
    }

    /// The inputs and parameters that the next advance computes from.
    pub open spec fn operands_spec(self) -> Operands {
        Operands {
            pre: self.pre,
            post: self.post,
            g_fast: self.g_fast,
            e_syn: self.e_syn,
            s_fast: self.s_fast,
            v_fast: self.v_fast,
        }
    }

    /// The state after an advance that computed `current`.
    pub open spec fn with_output(self, current: u64) -> Self {
        FastChemicalSynapsePlugin { output: current, ..self }
    }

    /// What the host reads under `name`: the stored current for the output
    /// port, zero for every other name.
    pub open spec fn output_named(self, name: Seq<u8>) -> u64 {
        if name == output_name_bytes() {
            self.output
        } else {
            ZERO_BITS
        }
    }

    /// A synapse with default parameters, zero inputs and zero output.
    pub fn new(id: u64) -> (plugin: Self)
        ensures
            plugin == Self::initial(id),
    {
        FastChemicalSynapsePlugin {
            id,
            pre: ZERO_BITS,
            post: ZERO_BITS,
            output: ZERO_BITS,
            g_fast: DEFAULT_G_FAST_BITS,
            e_syn: DEFAULT_E_SYN_BITS,
            s_fast: DEFAULT_S_FAST_BITS,
            v_fast: DEFAULT_V_FAST_BITS,
        }
    }

    /// Overwrites one parameter.
    pub fn assign_parameter(&mut self, parameter: Parameter, bits: u64)
        ensures
            *final(self) == old(self).with_parameter(parameter, bits),
    {
        match parameter {
            Parameter::GFast => self.g_fast = bits,
            Parameter::ESyn => self.e_syn = bits,
            Parameter::SFast => self.s_fast = bits,
            Parameter::VFast => self.v_fast = bits,
        }
    }

    /// Overwrites the parameter called `name`; an unknown name changes
    /// nothing.
    pub fn set_parameter(&mut self, name: &[u8], bits: u64)
        ensures
            *final(self) == old(self).with_parameter_named(name@, bits),
    {
        match find_parameter(name) {
            Some(parameter) => self.assign_parameter(parameter, bits),
            None => {},
        }
    }

    /// Overwrites the input called `name`; an unknown name changes nothing.
    pub fn set_input(&mut self, name: &[u8], bits: u64)
        ensures
            *final(self) == old(self).with_input_named(name@, bits),
    {
        match find_input_port(name) {
            Some(InputPort::Pre) => self.pre = bits,
            Some(InputPort::Post) => self.post = bits,
            None => {},
        }
    }

    /// The inputs and parameters that the next advance computes from.
    pub fn operands(&self) -> (operands: Operands)
        ensures
            operands == self.operands_spec(),
    {
        Operands {
            pre: self.pre,
            post: self.post,
            g_fast: self.g_fast,
            e_syn: self.e_syn,
            s_fast: self.s_fast,
            v_fast: self.v_fast,
        }
    }

    /// Stores a synaptic current as the output. Nothing else changes.
    pub fn store_output(&mut self, current: u64)
        ensures
            *final(self) == old(self).with_output(current),
    {
        self.output = current;
    }

    /// Advances one tick: hands the present inputs and parameters to
    /// `compute`, the floating-point kernel of the synapse, and stores what
    /// it returns as the output. The output is computed afresh on every
    /// call; nothing else changes.
    pub fn advance<F: Fn(Operands) -> u64>(&mut self, compute: F)
        requires
            call_requires(compute, (old(self).operands_spec(),)),
        ensures
            call_ensures(compute, (old(self).operands_spec(),), final(self).output),
            *final(self) == old(self).with_output(final(self).output),
    {
        let current = compute(self.operands());
        self.store_output(current);
    }

    /// Reads the port called `name`: the stored current for the output port,
    /// zero for every other name.
    pub fn get_output(&self, name: &[u8]) -> (bits: u64)
        ensures
            bits == self.output_named(name@),
    {
        if is_output_port(name) {
            self.output
        } else {
            ZERO_BITS
        }
    }

    /// Overwrites each parameter for which a value is given and leaves the
    /// others as they are.
    pub fn configure(
        &mut self,
        g_fast: Option<u64>,
        e_syn: Option<u64>,
        s_fast: Option<u64>,
        v_fast: Option<u64>,
    )
        ensures
            *final(self) == old(self).with_overrides(g_fast, e_syn, s_fast, v_fast),
    {
        if let Some(bits) = g_fast {
            self.g_fast = bits;
        }
        if let Some(bits) = e_syn {
            self.e_syn = bits;
        }
        if let Some(bits) = s_fast {
            self.s_fast = bits;
        }
        if let Some(bits) = v_fast {
            self.v_fast = bits;
        }
    }

    /// Applies the numeric members of a parsed configuration object.
    pub fn apply_value(&mut self, value: &serde_json::Value)
        ensures
            *final(self) == old(self).configured(number_members(*value)),
    {
        let g_fast = number_member(value, Parameter::GFast.key());
        let e_syn = number_member(value, Parameter::ESyn.key());
        let s_fast = number_member(value, Parameter::SFast.key());
        let v_fast = number_member(value, Parameter::VFast.key());
        self.configure(g_fast, e_syn, s_fast, v_fast);
    }

    /// Parses a configuration payload and applies it. A payload that does not
    /// parse is discarded whole and changes nothing.
    pub fn apply_configuration(&mut self, payload: &[u8])
        ensures
            *final(self) == old(self).with_payload(payload_numbers(payload@)),
    {
        match parse_payload(payload) {
            Some(value) => self.apply_value(&value),
            None => {},
        }
    }

    /// The identifier given at creation.
    pub fn id(&self) -> (id: u64)
        ensures
            id == self.id,
    {
        self.id
    }

    /// The current value of a parameter.
    pub fn parameter(&self, parameter: Parameter) -> (bits: u64)
        ensures
            bits == self.parameter_spec(parameter),
    {
        match parameter {
            Parameter::GFast => self.g_fast,
            Parameter::ESyn => self.e_syn,
            Parameter::SFast => self.s_fast,
            Parameter::VFast => self.v_fast,
        }
    }

    /// The current value of an input.
    pub fn input(&self, port: InputPort) -> (bits: u64)
        ensures
            bits == self.input_spec(port),
    {
        match port {
            InputPort::Pre => self.pre,
            InputPort::Post => self.post,
        }
    }

    /// The description of the node class; the same for every instance.
    pub fn meta(&self) -> (meta: NodeMetadata)
        ensures
            meta.is_declared(),
    {
        NodeMetadata::new()
    }

    /// The declared input port names; the same for every instance.
    pub fn inputs(&self) -> (names: Vec<String>)
        ensures
            names@.len() == 2,
            names@[0]@ == InputPort::Pre.name_spec(),
            names@[1]@ == InputPort::Post.name_spec(),
    {
        input_port_names()
    }

    /// The declared output port names; the same for every instance.
    pub fn outputs(&self) -> (names: Vec<String>)
        ensures
            names@.len() == 1,
            names@[0]@ == "i_syn"@,
    {
        output_port_names()
    }
}

} // verus!
