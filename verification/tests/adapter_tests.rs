use fast_chemical_synapse::adapter::{
    advance, apply_configuration, create, describe_inputs, describe_metadata, describe_outputs,
    destroy, read_output, store_output, write_input, NodeHandle,
};
use fast_chemical_synapse::model::{FastChemicalSynapsePlugin, Operands};

fn parameters(handle: &NodeHandle) -> (f64, f64, f64, f64) {
    let plugin = handle.state.unwrap().plugin;
    (
        f64::from_bits(plugin.g_fast),
        f64::from_bits(plugin.e_syn),
        f64::from_bits(plugin.s_fast),
        f64::from_bits(plugin.v_fast),
    )
}

fn kernel(operands: Operands) -> u64 {
    let gate = (f64::from_bits(operands.s_fast)
        * (f64::from_bits(operands.v_fast) - f64::from_bits(operands.pre)))
    .exp();
    let value = f64::from_bits(operands.g_fast)
        * (f64::from_bits(operands.post) - f64::from_bits(operands.e_syn))
        / (1.0 + gate);
    value.to_bits()
}

#[test]
fn create_gives_a_live_handle_with_defaults() {
    let handle = create(17);
    assert!(!handle.is_null());
    let state = handle.state.unwrap();
    assert_eq!(state.plugin, FastChemicalSynapsePlugin::new(17));
    assert_eq!(state.ctx.tick, 0);
    assert_eq!(parameters(&handle), (0.208, -1.92, 0.44, -1.66));
    destroy(handle);
}

#[test]
fn destroy_accepts_a_null_handle() {
    let handle = NodeHandle::null();
    assert!(handle.is_null());
    destroy(handle);
}

#[test]
fn describe_inputs_is_the_fixed_list() {
    let handle = create(1);
    assert_eq!(describe_inputs(&handle), "[\"pre\",\"post\"]");
    assert_eq!(describe_inputs(&NodeHandle::null()), "[\"pre\",\"post\"]");
}

#[test]
fn describe_outputs_is_the_fixed_list() {
    let mut handle = create(1);
    assert_eq!(describe_outputs(&handle), "[\"i_syn\"]");
    store_output(&mut handle, 1, 5);
    assert_eq!(describe_outputs(&handle), "[\"i_syn\"]");
    assert_eq!(describe_outputs(&NodeHandle::null()), "[\"i_syn\"]");
}

#[test]
fn describe_metadata_has_name_and_kind() {
    let handle = create(1);
    let text = describe_metadata(&handle);
    assert_eq!(text, "{\"kind\":\"fast_chemical_synapse\",\"name\":\"Fast Chemical Synapse\"}");
    let parsed: serde_json::Value = serde_json::from_str(&text).unwrap();
    assert_eq!(parsed.get("name").and_then(|v| v.as_str()), Some("Fast Chemical Synapse"));
    assert_eq!(parsed.get("kind").and_then(|v| v.as_str()), Some("fast_chemical_synapse"));
    assert_eq!(parsed.as_object().unwrap().len(), 2);
    assert_eq!(describe_metadata(&NodeHandle::null()), text);
}

#[test]
fn configuration_with_only_g_fast_changes_only_g_fast() {
    let mut handle = create(1);
    apply_configuration(&mut handle, b"{\"g_fast\": 1.0}");
    assert_eq!(parameters(&handle), (1.0, -1.92, 0.44, -1.66));
    let plugin = handle.state.unwrap().plugin;
    assert_eq!(plugin.pre, 0);
    assert_eq!(plugin.post, 0);
    assert_eq!(plugin.output, 0);
}

#[test]
fn configuration_sets_every_recognised_key() {
    let mut handle = create(1);
    apply_configuration(
        &mut handle,
        b"{\"g_fast\": 0.5, \"e_syn\": -2, \"s_fast\": 1e-1, \"v_fast\": 3}",
    );
    assert_eq!(parameters(&handle), (0.5, -2.0, 0.1, 3.0));
}

#[test]
fn configuration_ignores_unknown_keys() {
    let mut handle = create(1);
    apply_configuration(&mut handle, b"{\"tau\": 5.0, \"v_fast\": -1.0, \"pre\": 3}");
    assert_eq!(parameters(&handle), (0.208, -1.92, 0.44, -1.0));
    assert_eq!(handle.state.unwrap().plugin.pre, 0);
}

#[test]
fn configuration_skips_members_that_are_not_numbers() {
    let mut handle = create(1);
    apply_configuration(
        &mut handle,
        b"{\"g_fast\": \"1.0\", \"e_syn\": null, \"s_fast\": [2], \"v_fast\": 7.5}",
    );
    assert_eq!(parameters(&handle), (0.208, -1.92, 0.44, 7.5));
}

#[test]
fn configuration_that_is_no_object_changes_nothing() {
    let mut handle = create(1);
    apply_configuration(&mut handle, b"[1.0, 2.0]");
    apply_configuration(&mut handle, b"3.5");
    apply_configuration(&mut handle, b"\"g_fast\"");
    apply_configuration(&mut handle, b"{}");
    assert_eq!(parameters(&handle), (0.208, -1.92, 0.44, -1.66));
}

#[test]
fn unparseable_configuration_changes_nothing() {
    let mut handle = create(1);
    apply_configuration(&mut handle, b"{\"g_fast\": 2.0}");
    let before = handle.state.unwrap();
    apply_configuration(&mut handle, b"{\"g_fast\": 1.0");
    assert_eq!(handle.state.unwrap(), before);
    apply_configuration(&mut handle, b"{\"g_fast\": 1.0, \"e_syn\": }");
    assert_eq!(handle.state.unwrap(), before);
    apply_configuration(&mut handle, b"{\"g_fast\": 1.0} trailing");
    assert_eq!(handle.state.unwrap(), before);
    apply_configuration(&mut handle, &[0xff, 0xfe, 0x00]);
    assert_eq!(handle.state.unwrap(), before);
    apply_configuration(&mut handle, b"");
    assert_eq!(handle.state.unwrap(), before);
    assert_eq!(parameters(&handle), (2.0, -1.92, 0.44, -1.66));
}

#[test]
fn write_input_sets_the_named_port() {
    let mut handle = create(1);
    write_input(&mut handle, b"pre", 0.25f64.to_bits());
    write_input(&mut handle, b"post", (-0.75f64).to_bits());
    let plugin = handle.state.unwrap().plugin;
    assert_eq!(f64::from_bits(plugin.pre), 0.25);
    assert_eq!(f64::from_bits(plugin.post), -0.75);
    assert_eq!(plugin.output, 0);
}

#[test]
fn write_input_with_unknown_port_keeps_the_output_the_same() {
    let mut with_call = create(1);
    let mut without_call = create(1);
    write_input(&mut with_call, b"post", 0.4f64.to_bits());
    write_input(&mut without_call, b"post", 0.4f64.to_bits());
    write_input(&mut with_call, b"extra", 99.0f64.to_bits());
    write_input(&mut with_call, &[0x80], 99.0f64.to_bits());
    assert_eq!(with_call.state, without_call.state);
    advance(&mut with_call, 1, kernel);
    advance(&mut without_call, 1, kernel);
    assert_eq!(read_output(&with_call, b"i_syn"), read_output(&without_call, b"i_syn"));
}

#[test]
fn store_output_records_the_tick_and_the_current() {
    let mut handle = create(1);
    store_output(&mut handle, 12, 3.0f64.to_bits());
    let state = handle.state.unwrap();
    assert_eq!(state.ctx.tick, 12);
    assert_eq!(f64::from_bits(state.plugin.output), 3.0);
    assert_eq!(f64::from_bits(read_output(&handle, b"i_syn")), 3.0);
}

#[test]
fn store_output_on_the_same_tick_stores_the_new_current() {
    let mut handle = create(1);
    store_output(&mut handle, 4, 1.0f64.to_bits());
    store_output(&mut handle, 4, 2.0f64.to_bits());
    assert_eq!(f64::from_bits(read_output(&handle, b"i_syn")), 2.0);
    assert_eq!(handle.state.unwrap().ctx.tick, 4);
}

#[test]
fn read_output_of_other_names_is_zero() {
    let mut handle = create(1);
    assert_eq!(f64::from_bits(read_output(&handle, b"pre")), 0.0);
    assert_eq!(f64::from_bits(read_output(&handle, b"i_syn")), 0.0);
    for tick in 0..3u64 {
        store_output(&mut handle, tick, 8.0f64.to_bits());
        assert_eq!(f64::from_bits(read_output(&handle, b"post")), 0.0);
        assert_eq!(f64::from_bits(read_output(&handle, b"i_syn ")), 0.0);
        assert_eq!(f64::from_bits(read_output(&handle, &[0xe2, 0x82])), 0.0);
    }
    assert_eq!(f64::from_bits(read_output(&handle, b"i_syn")), 8.0);
}

#[test]
fn scenario_defaults_at_rest() {
    let mut handle = create(1);
    write_input(&mut handle, b"pre", 0.0f64.to_bits());
    write_input(&mut handle, b"post", 0.0f64.to_bits());
    advance(&mut handle, 0, kernel);
    let i_syn = f64::from_bits(read_output(&handle, b"i_syn"));
    assert!((i_syn - 0.2695).abs() < 1e-4);
}

#[test]
fn configuration_shows_in_the_next_advance() {
    let mut handle = create(1);
    apply_configuration(&mut handle, b"{\"g_fast\": 1.0, \"e_syn\": 0.0}");
    write_input(&mut handle, b"pre", (-1.66f64).to_bits());
    write_input(&mut handle, b"post", 3.0f64.to_bits());
    advance(&mut handle, 1, kernel);
    assert_eq!(f64::from_bits(read_output(&handle, b"i_syn")), 1.5);
}

#[test]
fn null_handle_is_inert() {
    let mut handle = NodeHandle::null();
    apply_configuration(&mut handle, b"{\"g_fast\": 1.0}");
    assert!(handle.is_null());
    write_input(&mut handle, b"pre", 1.0f64.to_bits());
    assert!(handle.is_null());
    store_output(&mut handle, 5, 1.0f64.to_bits());
    assert!(handle.is_null());
    assert_eq!(f64::from_bits(read_output(&handle, b"i_syn")), 0.0);
    assert_eq!(f64::from_bits(read_output(&handle, b"pre")), 0.0);
}

#[test]
fn handles_are_independent() {
    let mut first = create(1);
    let mut second = create(2);
    write_input(&mut first, b"pre", 1.0f64.to_bits());
    apply_configuration(&mut second, b"{\"s_fast\": 9.0}");
    store_output(&mut first, 1, 6.0f64.to_bits());
    assert_eq!(second.state.unwrap().plugin.pre, 0);
    assert_eq!(second.state.unwrap().plugin.output, 0);
    assert_eq!(parameters(&first), (0.208, -1.92, 0.44, -1.66));
    assert_eq!(parameters(&second), (0.208, -1.92, 9.0, -1.66));
    assert_eq!(first.state.unwrap().plugin.id(), 1);
    assert_eq!(second.state.unwrap().plugin.id(), 2);
}

#[test]
fn advance_records_the_tick_and_the_kernel_result() {
    let mut handle = create(1);
    write_input(&mut handle, b"pre", 5);
    advance(&mut handle, 33, |operands: Operands| operands.pre + 2);
    let state = handle.state.unwrap();
    assert_eq!(state.ctx.tick, 33);
    assert_eq!(read_output(&handle, b"i_syn"), 7);
    assert_eq!(state.plugin.pre, 5);
}

#[test]
fn advance_on_the_same_tick_recomputes() {
    let mut handle = create(1);
    write_input(&mut handle, b"post", 1.0f64.to_bits());
    advance(&mut handle, 4, kernel);
    let first = read_output(&handle, b"i_syn");
    write_input(&mut handle, b"post", 2.0f64.to_bits());
    advance(&mut handle, 4, kernel);
    assert_ne!(read_output(&handle, b"i_syn"), first);
    assert_eq!(handle.state.unwrap().ctx.tick, 4);
}

#[test]
fn advance_on_a_null_handle_does_not_call_the_kernel() {
    let mut handle = NodeHandle::null();
    advance(&mut handle, 1, |_operands: Operands| -> u64 { panic!("kernel called") });
    assert!(handle.is_null());
    assert_eq!(read_output(&handle, b"i_syn"), 0);
}
