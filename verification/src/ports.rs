//! The node's ports and tunable parameters, and how a name sent by the host
//! is recognised.
//!
//! The host sends names as raw bytes. A name is recognised exactly when the
//! bytes are the UTF-8 encoding of a declared name; bytes that are not valid
//! UTF-8 therefore match nothing.

use vstd::prelude::*;
use vstd::string::StringSliceAdditionalSpecFns;

verus! {

/// An input port of the synapse.
#[derive(Clone, Copy, Debug, PartialEq, Eq, Structural)]
pub enum InputPort {
    /// The presynaptic potential.
    Pre,
    /// The postsynaptic potential.
    Post,
}

/// A tunable parameter of the synapse.
#[derive(Clone, Copy, Debug, PartialEq, Eq, Structural)]
pub enum Parameter {
    /// Maximal conductance.
    GFast,
    /// Reversal potential.
    ESyn,
    /// Slope of the gating sigmoid.
    SFast,
    /// Half-activation potential of the gating sigmoid.
    VFast,
}

/// Bit pattern of the double `0.0`.
pub const ZERO_BITS: u64 = 0;

/// Bit pattern of the double `0.208`, the default of `g_fast`.
pub const DEFAULT_G_FAST_BITS: u64 = 0x3fca_9fbe_76c8_b439;

/// Bit pattern of the double `-1.92`, the default of `e_syn`.
pub const DEFAULT_E_SYN_BITS: u64 = 0xbffe_b851_eb85_1eb8;

/// Bit pattern of the double `0.44`, the default of `s_fast`.
pub const DEFAULT_S_FAST_BITS: u64 = 0x3fdc_28f5_c28f_5c29;

/// Bit pattern of the double `-1.66`, the default of `v_fast`.
pub const DEFAULT_V_FAST_BITS: u64 = 0xbffa_8f5c_28f5_c28f;

impl InputPort {
    /// The port's declared name.
    pub open spec fn name_spec(self) -> Seq<char> {
        match self {
            InputPort::Pre => "pre"@,
            InputPort::Post => "post"@,
        }
    }

    /// The bytes by which the host addresses the port.
    pub open spec fn name_bytes(self) -> Seq<u8> {
        match self {
            InputPort::Pre => "pre".spec_bytes(),
            InputPort::Post => "post".spec_bytes(),
        }
    }

    /// The port's declared name.
    pub fn name(self) -> (name: &'static str)
        ensures
            name@ == self.name_spec(),
            name.spec_bytes() == self.name_bytes(),
    {
        match self {
            InputPort::Pre => "pre",
            InputPort::Post => "post",
        }
    }
}

impl Parameter {
    /// The parameter's key in a configuration object.
    pub open spec fn key_spec(self) -> Seq<char> {
        match self {
            Parameter::GFast => "g_fast"@,
            Parameter::ESyn => "e_syn"@,
            Parameter::SFast => "s_fast"@,
            Parameter::VFast => "v_fast"@,
        }
    }

    /// The bytes by which the host addresses the parameter.
    pub open spec fn key_bytes(self) -> Seq<u8> {
        match self {
            Parameter::GFast => "g_fast".spec_bytes(),
            Parameter::ESyn => "e_syn".spec_bytes(),
            Parameter::SFast => "s_fast".spec_bytes(),
            Parameter::VFast => "v_fast".spec_bytes(),
        }
    }

    /// The bit pattern of the parameter's default value.
    pub open spec fn default_bits_spec(self) -> u64 {
        match self {
            Parameter::GFast => DEFAULT_G_FAST_BITS,
            Parameter::ESyn => DEFAULT_E_SYN_BITS,
            Parameter::SFast => DEFAULT_S_FAST_BITS,
            Parameter::VFast => DEFAULT_V_FAST_BITS,
        }
    }

    /// The parameter's key in a configuration object.
    pub fn key(self) -> (key: &'static str)
        ensures
            key@ == self.key_spec(),
            key.spec_bytes() == self.key_bytes(),
    {
        match self {
            Parameter::GFast => "g_fast",
            Parameter::ESyn => "e_syn",
            Parameter::SFast => "s_fast",
            Parameter::VFast => "v_fast",
        }
    }

    /// The bit pattern of the parameter's default value.
    pub fn default_bits(self) -> (bits: u64)
        ensures
            bits == self.default_bits_spec(),
    {
        match self {
            Parameter::GFast => DEFAULT_G_FAST_BITS,
            Parameter::ESyn => DEFAULT_E_SYN_BITS,
            Parameter::SFast => DEFAULT_S_FAST_BITS,
            Parameter::VFast => DEFAULT_V_FAST_BITS,
        }
    }
}

/// The bytes by which the host addresses the output port.
pub open spec fn output_name_bytes() -> Seq<u8> {
    "i_syn".spec_bytes()
}

/// The input port that a name denotes, if any.
pub open spec fn input_port_named(name: Seq<u8>) -> Option<InputPort> {
    if name == InputPort::Pre.name_bytes() {
        Some(InputPort::Pre)
    } else if name == InputPort::Post.name_bytes() {
        Some(InputPort::Post)
    } else {
        None
    }
}

/// The parameter that a name denotes, if any.
pub open spec fn parameter_named(name: Seq<u8>) -> Option<Parameter> {
    if name == Parameter::GFast.key_bytes() {
        Some(Parameter::GFast)
    } else if name == Parameter::ESyn.key_bytes() {
        Some(Parameter::ESyn)
    } else if name == Parameter::SFast.key_bytes() {
        Some(Parameter::SFast)
    } else if name == Parameter::VFast.key_bytes() {
        Some(Parameter::VFast)
    } else {
        None
    }
}

/// Whether two byte strings are equal.
pub fn bytes_equal(left: &[u8], right: &[u8]) -> (equal: bool)
    ensures
        equal == (left@ == right@),
{
    if left.len() != right.len() {
        return false;
    }
    let mut i: usize = 0;
    while i < left.len()
        invariant
            left@.len() == right@.len(),
            i <= left@.len(),
            forall|k: int| 0 <= k < i ==> left@[k] == right@[k],
        decreases left@.len() - i,
    {
        if left[i] != right[i] {
            return false;
        }
        i += 1;
    }
    assert(left@ =~= right@);
    true
}

/// Finds the input port that a name denotes.
pub fn find_input_port(name: &[u8]) -> (port: Option<InputPort>)
    ensures
        port == input_port_named(name@),
{
    if bytes_equal(name, InputPort::Pre.name().as_bytes()) {
        Some(InputPort::Pre)
    } else if bytes_equal(name, InputPort::Post.name().as_bytes()) {
        Some(InputPort::Post)
    } else {
        None
    }
}

/// Finds the parameter that a name denotes.
pub fn find_parameter(name: &[u8]) -> (parameter: Option<Parameter>)
    ensures
        parameter == parameter_named(name@),
{
    if bytes_equal(name, Parameter::GFast.key().as_bytes()) {
        Some(Parameter::GFast)
    } else if bytes_equal(name, Parameter::ESyn.key().as_bytes()) {
        Some(Parameter::ESyn)
    } else if bytes_equal(name, Parameter::SFast.key().as_bytes()) {
        Some(Parameter::SFast)
    } else if bytes_equal(name, Parameter::VFast.key().as_bytes()) {
        Some(Parameter::VFast)
    } else {
        None
    }
}

/// Whether a name denotes the output port.
pub fn is_output_port(name: &[u8]) -> (matches: bool)
    ensures
        matches == (name@ == output_name_bytes()),
{
    bytes_equal(name, "i_syn".as_bytes())
}

/// The declared input port names, in declaration order.
pub fn input_port_names() -> (names: Vec<String>)
    ensures
        names@.len() == 2,
        names@[0]@ == InputPort::Pre.name_spec(),
        names@[1]@ == InputPort::Post.name_spec(),
{
    let mut names: Vec<String> = Vec::new();
    names.push(InputPort::Pre.name().to_owned());
    names.push(InputPort::Post.name().to_owned());
    names
}

/// The declared output port names.
pub fn output_port_names() -> (names: Vec<String>)
    ensures
        names@.len() == 1,
        names@[0]@ == "i_syn"@,
{
    let mut names: Vec<String> = Vec::new();
    names.push("i_syn".to_owned());
    names
}

} // verus!
