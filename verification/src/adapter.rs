//! The boundary adapter: the node model behind a handle that may be null.
//!
//! A handle owns its state exclusively and is neither copied nor cloned, so
//! that it is released once. Every operation tolerates a null handle: a
//! write does nothing and a read gives the default.

use vstd::prelude::*;
use crate::json::{
    field_views, name_list_json, name_list_text, name_views, payload_numbers, record_json,
    record_text,
};
use crate::model::{FastChemicalSynapsePlugin, NodeMetadata, Operands};
use crate::ports::{
    input_port_names, output_name_bytes, output_port_names, InputPort, ZERO_BITS,
};

verus! {

/// What one advance carries into the node.
#[derive(Clone, Copy, Debug, PartialEq, Eq, Structural)]
pub struct TickContext {
    /// Index of the tick seen last.
    pub tick: u64,
}

/// The allocation behind a handle.
#[derive(Clone, Copy, Debug, PartialEq, Eq, Structural)]
pub struct PluginState {
    /// The synapse.
    pub plugin: FastChemicalSynapsePlugin,
    /// Bookkeeping of the latest advance.
    pub ctx: TickContext,
}

/// A capability for one node, or null.
#[derive(Debug)]
pub struct NodeHandle {
    /// The owned state; `None` for the null handle.
    pub state: Option<PluginState>,
}

/// The fields of the metadata record, in the order in which they are given
/// to the printer.
pub open spec fn metadata_fields() -> Seq<(Seq<char>, Seq<char>)> {
    seq![("name"@, "Fast Chemical Synapse"@), ("kind"@, "fast_chemical_synapse"@)]
}

/// The input port names as the host is told them.
pub open spec fn declared_inputs() -> Seq<Seq<char>> {
    seq![InputPort::Pre.name_spec(), InputPort::Post.name_spec()]
}

/// The output port names as the host is told them.
pub open spec fn declared_outputs() -> Seq<Seq<char>> {
    seq!["i_syn"@]
}

impl PluginState {
    /// The state behind a freshly created handle.
    pub open spec fn initial(id: u64) -> Self {
        PluginState { plugin: FastChemicalSynapsePlugin::initial(id), ctx: TickContext { tick: 0 } }
    }
}

impl NodeHandle {
    /// The handle with another synapse state and the same bookkeeping; the
    /// null handle stays null.
    pub open spec fn with_plugin(self, plugin: FastChemicalSynapsePlugin) -> Self {
        match self.state {
            Some(state) => NodeHandle { state: Some(PluginState { plugin, ..state }) },
            None => self,
        }
    }

    /// The handle after a configuration payload.
    pub open spec fn configured(self, payload: Seq<u8>) -> Self {
        match self.state {
            Some(state) => self.with_plugin(state.plugin.with_payload(payload_numbers(payload))),
            None => self,
        }
    }

    /// The handle after the host wrote `bits` under `name`.
    pub open spec fn written(self, name: Seq<u8>, bits: u64) -> Self {
        match self.state {
            Some(state) => self.with_plugin(state.plugin.with_input_named(name, bits)),
            None => self,
        }
    }

    /// The handle after an advance at `tick` that computed `current`.
    pub open spec fn advanced(self, tick: u64, current: u64) -> Self {
        match self.state {
            Some(state) => NodeHandle {
                state: Some(
                    PluginState {
                        plugin: state.plugin.with_output(current),
                        ctx: TickContext { tick },
                    },
                ),
            },
            None => self,
        }
    }

    /// The output stored behind the handle; zero for the null handle.
    pub open spec fn stored_output(self) -> u64 {
        match self.state {
            Some(state) => state.plugin.output,
            None => ZERO_BITS,
        }
    }

    /// What the host reads under `name`.
    pub open spec fn read(self, name: Seq<u8>) -> u64 {
        match self.state {
            Some(state) => state.plugin.output_named(name),
            None => ZERO_BITS,
        }
    }

    /// The null handle.
    pub fn null() -> (handle: Self)
        ensures
            handle.state is None,
    {
        NodeHandle { state: None }
    }

    /// Whether the handle is null.
    pub fn is_null(&self) -> (null: bool)
        ensures
            null == (self.state is None),
    {
        self.state.is_none()
    }
}

/// Allocates a node with default parameters and returns the handle that owns
/// it.
pub fn create(id: u64) -> (handle: NodeHandle)
    ensures
        handle.state == Some(PluginState::initial(id)),
{
    NodeHandle {
        state: Some(
            PluginState { plugin: FastChemicalSynapsePlugin::new(id), ctx: TickContext { tick: 0 } },
        ),
    }
}

/// Releases the node behind a handle. The handle is consumed, so it cannot
/// be released twice; a null handle is accepted and nothing happens.
pub fn destroy(handle: NodeHandle) {
    let _ = handle;
}

/// The metadata record as JSON text; the same for every handle.
pub fn describe_metadata(handle: &NodeHandle) -> (text: String)
    ensures
        text@ == record_text(metadata_fields()),
{
    let meta = NodeMetadata::new();
    let mut fields: Vec<(String, String)> = Vec::new();
    fields.push(("name".to_owned(), meta.name));
    fields.push(("kind".to_owned(), meta.kind));
    assert(field_views(fields@) =~= metadata_fields());
    record_json(&fields)
}

/// The input port names as a JSON array; the same for every handle.
pub fn describe_inputs(handle: &NodeHandle) -> (text: String)
    ensures
        text@ == name_list_text(declared_inputs()),
{
    let names = input_port_names();
    assert(name_views(names@) =~= declared_inputs());
    name_list_json(&names).unwrap()
}

/// The output port names as a JSON array; the same for every handle.
pub fn describe_outputs(handle: &NodeHandle) -> (text: String)
    ensures
        text@ == name_list_text(declared_outputs()),
{
    let names = output_port_names();
    assert(name_views(names@) =~= declared_outputs());
    name_list_json(&names).unwrap()
}

/// Applies a configuration payload to the node. A payload that does not
/// parse, or a null handle, changes nothing.
pub fn apply_configuration(handle: &mut NodeHandle, payload: &[u8])
    ensures
        *final(handle) == old(handle).configured(payload@),
{
    match handle.state {
        Some(state) => {
            let mut plugin = state.plugin;
            plugin.apply_configuration(payload);
            handle.state = Some(PluginState { plugin, ctx: state.ctx });
        },
        None => {},
    }
}

/// Writes an input by port name. An unrecognised name, or a null handle,
/// changes nothing.
pub fn write_input(handle: &mut NodeHandle, name: &[u8], bits: u64)
    ensures
        *final(handle) == old(handle).written(name@, bits),
{
    match handle.state {
        Some(state) => {
            let mut plugin = state.plugin;
            plugin.set_input(name, bits);
            handle.state = Some(PluginState { plugin, ctx: state.ctx });
        },
        None => {},
    }
}

/// Stores a synaptic current as the node's output and records the tick
/// index. A null handle changes nothing.
pub fn store_output(handle: &mut NodeHandle, tick: u64, current: u64)
    ensures
        *final(handle) == old(handle).advanced(tick, current),
{
    match handle.state {
        Some(state) => {
            let mut plugin = state.plugin;
            plugin.store_output(current);
            handle.state = Some(PluginState { plugin, ctx: TickContext { tick } });
        },
        None => {},
    }
}

/// Advances the node by one tick: hands its present inputs and parameters to
/// `compute`, the floating-point kernel of the synapse, stores what it
/// returns as the output, and records the tick index. On a null handle the
/// kernel is not called and nothing changes.
pub fn advance<F: Fn(Operands) -> u64>(handle: &mut NodeHandle, tick: u64, compute: F)
    requires
        old(handle).state matches Some(state) ==> call_requires(
            compute,
            (state.plugin.operands_spec(),),
        ),
    ensures
        old(handle).state matches Some(state) ==> call_ensures(
            compute,
            (state.plugin.operands_spec(),),
            final(handle).read(output_name_bytes()),
        ),
        *final(handle) == old(handle).advanced(tick, final(handle).stored_output()),
{
    match handle.state {
        Some(state) => {
            let mut plugin = state.plugin;
            plugin.advance(compute);
            handle.state = Some(PluginState { plugin, ctx: TickContext { tick } });
        },
        None => {},
    }
}

/// Reads an output by port name: the stored current for the output port,
/// zero for any other name and for a null handle.
pub fn read_output(handle: &NodeHandle, name: &[u8]) -> (bits: u64)
    ensures
        bits == handle.read(name@),
{
    match handle.state {
        Some(state) => state.plugin.get_output(name),
        None => ZERO_BITS,
    }
}

} // verus!
