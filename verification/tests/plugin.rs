use bevy_mod_fxaa::node::FxaaNode;
use bevy_mod_fxaa::pipeline::ShaderAsset;
use bevy_mod_fxaa::plugin::{Neighbor, SubGraph};
use bevy_mod_fxaa::{FXAAPlugin, FXAA_NODE_2D, FXAA_NODE_3D};

#[test]
fn node_names() {
    assert_eq!(FXAA_NODE_3D, "fxaa_node_3d");
    assert_eq!(FXAA_NODE_2D, "fxaa_node_2d");
    assert_eq!(SubGraph::Core3d.node_name(), "fxaa_node_3d");
    assert_eq!(SubGraph::Core2d.node_name(), "fxaa_node_2d");
}

#[test]
fn plugin_switches_multisampling_off() {
    assert_eq!(FXAAPlugin.build().msaa_samples, 1);
}

#[test]
fn plugin_registers_the_three_shaders() {
    assert_eq!(
        FXAAPlugin.build().shaders,
        vec![ShaderAsset::ToLdr, ShaderAsset::Fxaa, ShaderAsset::Blit]
    );
}

#[test]
fn plugin_places_a_node_in_both_graphs() {
    let setup = FXAAPlugin.build();
    assert_eq!(setup.registrations.len(), 2);
    assert_eq!(setup.registrations[0].sub_graph, SubGraph::Core3d);
    assert_eq!(setup.registrations[0].node_name, "fxaa_node_3d");
    assert_eq!(setup.registrations[1].sub_graph, SubGraph::Core2d);
    assert_eq!(setup.registrations[1].node_name, "fxaa_node_2d");
    for registration in &setup.registrations {
        assert_eq!(registration.input_slot, FxaaNode::IN_VIEW);
        assert_eq!(registration.input_slot, "view");
        assert_eq!(registration.after, Neighbor::MainPass);
        assert_eq!(registration.before, Neighbor::Tonemapping);
    }
}
