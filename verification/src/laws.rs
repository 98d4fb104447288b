//! Laws of the node: what holds of every state and every call.

use vstd::prelude::*;
use crate::adapter::NodeHandle;
use crate::json::payload_numbers;
use crate::model::FastChemicalSynapsePlugin;
use crate::ports::{
    input_port_named, output_name_bytes, parameter_named, InputPort, Parameter, ZERO_BITS,
};
use vstd::string::StringSliceAdditionalSpecFns;
use vstd::utf8::{decode_utf8, decode_utf8_encode_utf8, encode_utf8_decode_utf8, encode_utf8_valid_utf8, valid_utf8};

verus! {

/// The bytes of each declared name, written out.
pub proof fn lemma_name_bytes()
    ensures
        InputPort::Pre.name_bytes() == seq![0x70u8, 0x72u8, 0x65u8],
        InputPort::Post.name_bytes() == seq![0x70u8, 0x6fu8, 0x73u8, 0x74u8],
        output_name_bytes() == seq![0x69u8, 0x5fu8, 0x73u8, 0x79u8, 0x6eu8],
        Parameter::GFast.key_bytes() == seq![0x67u8, 0x5fu8, 0x66u8, 0x61u8, 0x73u8, 0x74u8],
        Parameter::ESyn.key_bytes() == seq![0x65u8, 0x5fu8, 0x73u8, 0x79u8, 0x6eu8],
        Parameter::SFast.key_bytes() == seq![0x73u8, 0x5fu8, 0x66u8, 0x61u8, 0x73u8, 0x74u8],
        Parameter::VFast.key_bytes() == seq![0x76u8, 0x5fu8, 0x66u8, 0x61u8, 0x73u8, 0x74u8],
{
    broadcast use vstd::string::is_ascii_spec_bytes;
    reveal_strlit("pre");
    reveal_strlit("post");
    reveal_strlit("i_syn");
    reveal_strlit("g_fast");
    reveal_strlit("e_syn");
    reveal_strlit("s_fast");
    reveal_strlit("v_fast");
    assert("pre".is_ascii());
    assert("post".is_ascii());
    assert("i_syn".is_ascii());
    assert("g_fast".is_ascii());
    assert("e_syn".is_ascii());
    assert("s_fast".is_ascii());
    assert("v_fast".is_ascii());
    assert(InputPort::Pre.name_bytes() =~= seq![0x70u8, 0x72u8, 0x65u8]);
    assert(InputPort::Post.name_bytes() =~= seq![0x70u8, 0x6fu8, 0x73u8, 0x74u8]);
    assert(output_name_bytes() =~= seq![0x69u8, 0x5fu8, 0x73u8, 0x79u8, 0x6eu8]);
    assert(Parameter::GFast.key_bytes() =~= seq![0x67u8, 0x5fu8, 0x66u8, 0x61u8, 0x73u8, 0x74u8]);
    assert(Parameter::ESyn.key_bytes() =~= seq![0x65u8, 0x5fu8, 0x73u8, 0x79u8, 0x6eu8]);
    assert(Parameter::SFast.key_bytes() =~= seq![0x73u8, 0x5fu8, 0x66u8, 0x61u8, 0x73u8, 0x74u8]);
    assert(Parameter::VFast.key_bytes() =~= seq![0x76u8, 0x5fu8, 0x66u8, 0x61u8, 0x73u8, 0x74u8]);
}

/// A name denotes an input port exactly when it is that port's name, and a
/// parameter exactly when it is that parameter's key: no two declared names
/// share their bytes.
pub proof fn lemma_names_denote_one_thing(name: Seq<u8>, port: InputPort, parameter: Parameter)
    ensures
        input_port_named(name) == Some(port) <==> name == port.name_bytes(),
        parameter_named(name) == Some(parameter) <==> name == parameter.key_bytes(),
        input_port_named(output_name_bytes()) is None,
{
    lemma_name_bytes();
    if name == InputPort::Pre.name_bytes() {
        assert(name[2] != InputPort::Post.name_bytes()[2]);
    }
    if name == Parameter::GFast.key_bytes() || name == Parameter::SFast.key_bytes() || name
        == Parameter::VFast.key_bytes() || name == Parameter::ESyn.key_bytes() {
        assert(name[0] == 0x67u8 || name[0] == 0x73u8 || name[0] == 0x76u8 || name[0] == 0x65u8);
    }
    assert(output_name_bytes()[0] == 0x69u8);
}

/// The host's bytes are read as text: a byte string is a declared name
/// exactly when it is valid UTF-8 and decodes to that name.
pub proof fn lemma_names_are_decoded_text(name: Seq<u8>, port: InputPort, parameter: Parameter)
    ensures
        name == port.name_bytes() <==> valid_utf8(name) && decode_utf8(name) == port.name_spec(),
        name == parameter.key_bytes() <==> valid_utf8(name) && decode_utf8(name)
            == parameter.key_spec(),
        name == output_name_bytes() <==> valid_utf8(name) && decode_utf8(name) == "i_syn"@,
{
    encode_utf8_valid_utf8(port.name_spec());
    encode_utf8_decode_utf8(port.name_spec());
    encode_utf8_valid_utf8(parameter.key_spec());
    encode_utf8_decode_utf8(parameter.key_spec());
    encode_utf8_valid_utf8("i_syn"@);
    encode_utf8_decode_utf8("i_syn"@);
    if valid_utf8(name) {
        decode_utf8_encode_utf8(name);
    }
}

/// Bytes that are not valid UTF-8 are no declared name: a write under them
/// changes nothing and a read gives zero.
pub proof fn lemma_invalid_text_is_no_name(handle: NodeHandle, name: Seq<u8>, bits: u64)
    requires
        !valid_utf8(name),
    ensures
        input_port_named(name) is None,
        parameter_named(name) is None,
        handle.written(name, bits) == handle,
        handle.read(name) == ZERO_BITS,
{
    lemma_names_are_decoded_text(name, InputPort::Pre, Parameter::GFast);
    lemma_names_are_decoded_text(name, InputPort::Post, Parameter::ESyn);
    lemma_names_are_decoded_text(name, InputPort::Post, Parameter::SFast);
    lemma_names_are_decoded_text(name, InputPort::Post, Parameter::VFast);
}

/// The four configuration keys are pairwise different.
pub proof fn lemma_keys_distinct()
    ensures
        forall|p: Parameter, q: Parameter| p != q ==> p.key_spec() != q.key_spec(),
{
    reveal_strlit("g_fast");
    reveal_strlit("e_syn");
    reveal_strlit("s_fast");
    reveal_strlit("v_fast");
    assert forall|p: Parameter, q: Parameter| p != q implies p.key_spec() != q.key_spec() by {
        if p.key_spec().len() == q.key_spec().len() {
            assert(p.key_spec()[0] != q.key_spec()[0]);
        }
    }
}

/// After an advance on a live handle, the output port reads the current that
/// the advance stored, whatever was stored before.
pub proof fn lemma_read_after_advance(handle: NodeHandle, tick: u64, current: u64)
    requires
        handle.state is Some,
    ensures
        handle.advanced(tick, current).read(output_name_bytes()) == current,
{
}

/// An advance is memoryless: of two advances in a row only the second shows,
/// also where both carry the same tick index.
pub proof fn lemma_advance_is_memoryless(
    handle: NodeHandle,
    first_tick: u64,
    first: u64,
    second_tick: u64,
    second: u64,
)
    ensures
        handle.advanced(first_tick, first).advanced(second_tick, second) == handle.advanced(
            second_tick,
            second,
        ),
{
}

/// Any name other than that of the output port reads zero, in every state of
/// the handle.
pub proof fn lemma_other_names_read_zero(handle: NodeHandle, name: Seq<u8>)
    requires
        name != output_name_bytes(),
    ensures
        handle.read(name) == ZERO_BITS,
{
}

/// Writing under a name that is no input port leaves the handle, and with it
/// every declared input, unchanged; a following advance therefore gives the
/// same state as without the write.
pub proof fn lemma_unknown_input_ignored(
    handle: NodeHandle,
    name: Seq<u8>,
    bits: u64,
    tick: u64,
    current: u64,
)
    requires
        input_port_named(name) is None,
    ensures
        handle.written(name, bits) == handle,
        handle.written(name, bits).advanced(tick, current) == handle.advanced(tick, current),
{
}

/// Setting a parameter under a name that is no parameter changes nothing.
pub proof fn lemma_unknown_parameter_ignored(
    plugin: FastChemicalSynapsePlugin,
    name: Seq<u8>,
    bits: u64,
)
    requires
        parameter_named(name) is None,
    ensures
        plugin.with_parameter_named(name, bits) == plugin,
{
}

/// A configuration object whose only numeric member is one recognised key
/// sets that parameter and leaves the other three, the inputs and the output
/// as they were.
pub proof fn lemma_single_key_sets_one_parameter(
    plugin: FastChemicalSynapsePlugin,
    parameter: Parameter,
    bits: u64,
)
    ensures
        plugin.configured(Map::empty().insert(parameter.key_spec(), bits)) == plugin.with_parameter(
            parameter,
            bits,
        ),
        forall|other: Parameter|
            other != parameter ==> plugin.with_parameter(parameter, bits).parameter_spec(other)
                == plugin.parameter_spec(other),
        plugin.with_parameter(parameter, bits).parameter_spec(parameter) == bits,
{
    lemma_keys_distinct();
}

/// A configuration object without any recognised numeric member changes
/// nothing.
pub proof fn lemma_unrecognised_keys_ignored(
    plugin: FastChemicalSynapsePlugin,
    numbers: Map<Seq<char>, u64>,
)
    requires
        forall|parameter: Parameter| !numbers.contains_key(parameter.key_spec()),
    ensures
        plugin.configured(numbers) == plugin,
{
    assert(!numbers.contains_key(Parameter::GFast.key_spec()));
    assert(!numbers.contains_key(Parameter::ESyn.key_spec()));
    assert(!numbers.contains_key(Parameter::SFast.key_spec()));
    assert(!numbers.contains_key(Parameter::VFast.key_spec()));
}

/// A payload that does not parse leaves the handle unchanged, every
/// parameter included.
pub proof fn lemma_unparseable_payload_ignored(handle: NodeHandle, payload: Seq<u8>)
    requires
        payload_numbers(payload) is None,
    ensures
        handle.configured(payload) == handle,
{
}

/// Only an advance writes the output: neither a write to an input nor a
/// configuration payload changes what the output port reads.
pub proof fn lemma_only_advance_writes_output(
    handle: NodeHandle,
    name: Seq<u8>,
    bits: u64,
    payload: Seq<u8>,
    port: Seq<u8>,
)
    ensures
        handle.written(name, bits).read(port) == handle.read(port),
        handle.configured(payload).read(port) == handle.read(port),
{
}

/// A null handle stays null and reads zero, whatever is done to it.
pub proof fn lemma_null_handle_inert(
    handle: NodeHandle,
    name: Seq<u8>,
    bits: u64,
    payload: Seq<u8>,
    tick: u64,
    current: u64,
)
    requires
        handle.state is None,
    ensures
        handle.written(name, bits) == handle,
        handle.configured(payload) == handle,
        handle.advanced(tick, current) == handle,
        handle.read(name) == ZERO_BITS,
{
}

} // verus!
