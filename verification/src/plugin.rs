//! What the plugin sets up when it is added to the host: the shaders it
//! registers, and where the frame node stands in the render graphs.

use crate::node::FxaaNode;
use crate::pipeline::ShaderAsset;
use vstd::prelude::*;

verus! {

/// The name of the frame node in the graph of 3D views.
pub const FXAA_NODE_3D: &'static str = "fxaa_node_3d";

/// The name of the frame node in the graph of 2D views.
pub const FXAA_NODE_2D: &'static str = "fxaa_node_2d";

/// The render sub-graphs that get a frame node.
#[derive(Clone, Copy, Debug, PartialEq, Eq, Structural)]
pub enum SubGraph {
    Core3d,
    Core2d,
}

/// The nodes of a sub-graph next to which the frame node is placed.
#[derive(Clone, Copy, Debug, PartialEq, Eq, Structural)]
pub enum Neighbor {
    /// The pass that draws the scene.
    MainPass,
    /// The pass that maps tones for display.
    Tonemapping,
}

/// The place of one frame node: it is added to `sub_graph` under `node_name`,
/// its slot `input_slot` is fed with the view entity from the graph's input
/// node, and it runs after the node `after` and before the node `before`.
#[derive(Clone, Copy, Debug, PartialEq, Eq)]
pub struct NodeRegistration {
    pub sub_graph: SubGraph,
    pub node_name: &'static str,
    pub input_slot: &'static str,
    pub after: Neighbor,
    pub before: Neighbor,
}

/// What a registration says.
pub struct NodeRegistrationModel {
    pub sub_graph: SubGraph,
    pub node_name: Seq<char>,
    pub input_slot: Seq<char>,
    pub after: Neighbor,
    pub before: Neighbor,
}

impl View for NodeRegistration {
    type V = NodeRegistrationModel;

    open spec fn view(&self) -> NodeRegistrationModel {
        NodeRegistrationModel {
            sub_graph: self.sub_graph,
            node_name: self.node_name@,
            input_slot: self.input_slot@,
            after: self.after,
            before: self.before,
        }
    }
}

impl SubGraph {
    /// The name of the frame node in each sub-graph.
    pub open spec fn spec_node_name(&self) -> Seq<char> {
        match self {
            SubGraph::Core3d => FXAA_NODE_3D@,
            SubGraph::Core2d => FXAA_NODE_2D@,
        }
    }

    /// The name of the frame node in this sub-graph.
    pub fn node_name(&self) -> (name: &'static str)
        ensures
            name@ == self.spec_node_name(),
    {
        match self {
            SubGraph::Core3d => FXAA_NODE_3D,
            SubGraph::Core2d => FXAA_NODE_2D,
        }
    }

    /// The registration of the frame node in this sub-graph: between the
    /// main pass and tone mapping.
    pub open spec fn registration(self) -> NodeRegistrationModel {
        NodeRegistrationModel {
            sub_graph: self,
            node_name: self.spec_node_name(),
            input_slot: FxaaNode::IN_VIEW@,
            after: Neighbor::MainPass,
            before: Neighbor::Tonemapping,
        }
    }
}

/// What the plugin sets up.
#[derive(Clone, Debug, PartialEq, Eq)]
pub struct PluginSetup {
    /// The number of samples per pixel that the host is set to.
    pub msaa_samples: u32,
    /// The shaders to register, each under its handle.
    pub shaders: Vec<ShaderAsset>,
    /// The frame nodes to add.
    pub registrations: Vec<NodeRegistration>,
}

/// The plugin that adds the effect to a host.
pub struct FXAAPlugin;

impl FXAAPlugin {
    /// The setup of the plugin: multisampling is switched off, the three
    /// shaders are registered, and a frame node is placed in the 3D graph and
    /// in the 2D graph.
    pub fn build(&self) -> (setup: PluginSetup)
        ensures
            setup.msaa_samples == 1,
            setup.shaders@ == seq![ShaderAsset::ToLdr, ShaderAsset::Fxaa, ShaderAsset::Blit],
            setup.registrations@.len() == 2,
            setup.registrations@[0]@ == SubGraph::Core3d.registration(),
            setup.registrations@[1]@ == SubGraph::Core2d.registration(),
    {
        let mut shaders: Vec<ShaderAsset> = Vec::new();
        shaders.push(ShaderAsset::ToLdr);
        shaders.push(ShaderAsset::Fxaa);
        shaders.push(ShaderAsset::Blit);
        let mut registrations: Vec<NodeRegistration> = Vec::new();
        registrations.push(
            NodeRegistration {
                sub_graph: SubGraph::Core3d,
                node_name: SubGraph::Core3d.node_name(),
                input_slot: FxaaNode::IN_VIEW,
                after: Neighbor::MainPass,
                before: Neighbor::Tonemapping,
            },
        );
        registrations.push(
            NodeRegistration {
                sub_graph: SubGraph::Core2d,
                node_name: SubGraph::Core2d.node_name(),
                input_slot: FxaaNode::IN_VIEW,
                after: Neighbor::MainPass,
                before: Neighbor::Tonemapping,
            },
        );
        proof {
            assert(shaders@ =~= seq![ShaderAsset::ToLdr, ShaderAsset::Fxaa, ShaderAsset::Blit]);
        }
        PluginSetup { msaa_samples: 1, shaders, registrations }
    }
}

} // verus!
