//! Pipeline configuration and the pipeline description compiled from it.

use vstd::prelude::*;
use vstd::string::*;

verus! {

/// Whether a vertex buffer advances per vertex or per instance.
#[derive(Clone, Copy, Debug, PartialEq, Eq)]
pub enum StepMode {
    Vertex,
    Instance,
}

/// The layout of one vertex buffer slot.
#[derive(Clone, Copy, Debug, PartialEq, Eq)]
pub struct VertexBufferLayout {
    /// Distance in bytes between consecutive elements.
    pub array_stride: u64,
    pub step_mode: StepMode,
}

/// A group of uniforms that a pipeline can declare.
#[derive(Clone, Copy, Debug, PartialEq, Eq)]
pub enum UniformGroup {
    Material,
    Camera,
    Light,
}

/// The configuration a pipeline is compiled from.
#[derive(Clone, Debug, PartialEq, Eq)]
pub struct PipelineBuilder {
    pub name: String,
    pub uniform_material: bool,
    pub uniform_camera: bool,
    pub uniform_light: bool,
    /// Identifier of the vertex shader, such as `cube.vert`.
    pub vertex_shader: String,
    /// Identifier of the fragment shader, such as `cube.frag`.
    pub fragment_shader: String,
    pub vertex_buffer_layout: Vec<VertexBufferLayout>,
}

/// Mathematical content of a [`PipelineBuilder`].
pub ghost struct PipelineBuilderView {
    pub name: Seq<char>,
    pub uniform_material: bool,
    pub uniform_camera: bool,
    pub uniform_light: bool,
    pub vertex_shader: Seq<char>,
    pub fragment_shader: Seq<char>,
    pub vertex_buffer_layout: Seq<VertexBufferLayout>,
}

impl View for PipelineBuilder {
    type V = PipelineBuilderView;

    open spec fn view(&self) -> PipelineBuilderView {
        PipelineBuilderView {
            name: self.name@,
            uniform_material: self.uniform_material,
            uniform_camera: self.uniform_camera,
            uniform_light: self.uniform_light,
            vertex_shader: self.vertex_shader@,
            fragment_shader: self.fragment_shader@,
            vertex_buffer_layout: self.vertex_buffer_layout@,
        }
    }
}

/// Everything needed to compile one pipeline-state object.
#[derive(Clone, Debug, PartialEq, Eq)]
pub struct Pipeline {
    pub name: String,
    /// The uniform groups the pipeline layout declares; a group's position
    /// is its slot number.
    pub bind_groups: Vec<UniformGroup>,
    /// Path of the compiled vertex shader.
    pub vertex_shader_path: String,
    /// Path of the compiled fragment shader.
    pub fragment_shader_path: String,
    pub vertex_buffer_layout: Vec<VertexBufferLayout>,
}

/// Mathematical content of a [`Pipeline`].
pub ghost struct PipelineView {
    pub name: Seq<char>,
    pub bind_groups: Seq<UniformGroup>,
    pub vertex_shader_path: Seq<char>,
    pub fragment_shader_path: Seq<char>,
    pub vertex_buffer_layout: Seq<VertexBufferLayout>,
}

impl View for Pipeline {
    type V = PipelineView;

    open spec fn view(&self) -> PipelineView {
        PipelineView {
            name: self.name@,
            bind_groups: self.bind_groups@,
            vertex_shader_path: self.vertex_shader_path@,
            fragment_shader_path: self.fragment_shader_path@,
            vertex_buffer_layout: self.vertex_buffer_layout@,
        }
    }
}

/// The declared uniform groups: material, camera and light, in this order,
/// each present exactly when its flag is set.
pub open spec fn uniform_groups(material: bool, camera: bool, light: bool) -> Seq<UniformGroup> {
    (if material {
        seq![UniformGroup::Material]
    } else {
        Seq::<UniformGroup>::empty()
    }) + (if camera {
        seq![UniformGroup::Camera]
    } else {
        Seq::<UniformGroup>::empty()
    }) + (if light {
        seq![UniformGroup::Light]
    } else {
        Seq::<UniformGroup>::empty()
    })
}

/// Where the compiled artifact of a shader identifier lives.
pub open spec fn artifact_path(shader: Seq<char>) -> Seq<char> {
    "shaders/"@ + shader + ".spv"@
}

/// The pipeline that a configuration compiles to.
pub open spec fn compiled(config: PipelineBuilderView) -> PipelineView {
    PipelineView {
        name: config.name,
        bind_groups: uniform_groups(
            config.uniform_material,
            config.uniform_camera,
            config.uniform_light,
        ),
        vertex_shader_path: artifact_path(config.vertex_shader),
        fragment_shader_path: artifact_path(config.fragment_shader),
        vertex_buffer_layout: config.vertex_buffer_layout,
    }
}

/// The configuration every pipeline of the object called `name` is built
/// from: material and camera uniforms, no light, shaders named after the
/// object, and the two given vertex buffer slots.
pub open spec fn object_config(
    name: Seq<char>,
    layouts: Seq<VertexBufferLayout>,
) -> PipelineBuilderView {
    PipelineBuilderView {
        name: name + " pipeline"@,
        uniform_material: true,
        uniform_camera: true,
        uniform_light: false,
        vertex_shader: name + ".vert"@,
        fragment_shader: name + ".frag"@,
        vertex_buffer_layout: layouts,
    }
}

/// Builds the path of a compiled shader from its identifier.
pub fn shader_artifact(shader: &str) -> (path: String)
    ensures
        path@ == artifact_path(shader@),
{
    String::from_str("shaders/").concat(shader).concat(".spv")
}

/// Copies a list of vertex buffer layouts.
pub fn copy_layouts(layouts: &Vec<VertexBufferLayout>) -> (copy: Vec<VertexBufferLayout>)
    ensures
        copy@ == layouts@,
{
    let mut copy: Vec<VertexBufferLayout> = Vec::new();
    let mut i: usize = 0;
    while i < layouts.len()
        invariant
            i <= layouts@.len(),
            copy@ == layouts@.subrange(0, i as int),
        decreases layouts@.len() - i,
    {
        copy.push(layouts[i]);
        assert(copy@ =~= layouts@.subrange(0, i + 1));
        i += 1;
    }
    assert(copy@ =~= layouts@);
    copy
}

impl PipelineBuilder {
    /// The configuration shared by all pipelines of the object called `name`.
    pub fn for_object(name: &str, layouts: Vec<VertexBufferLayout>) -> (config: PipelineBuilder)
        ensures
            config@ == object_config(name@, layouts@),
    {
        PipelineBuilder {
            name: String::from_str(name).concat(" pipeline"),
            uniform_material: true,
            uniform_camera: true,
            uniform_light: false,
            vertex_shader: String::from_str(name).concat(".vert"),
            fragment_shader: String::from_str(name).concat(".frag"),
            vertex_buffer_layout: layouts,
        }
    }
}

impl Pipeline {
    /// Compiles a configuration into a pipeline description.
    pub fn new(config: &PipelineBuilder) -> (pipeline: Pipeline)
        ensures
            pipeline@ == compiled(config@),
    {
        let mut bind_groups: Vec<UniformGroup> = Vec::new();
        if config.uniform_material {
            bind_groups.push(UniformGroup::Material);
        }
        if config.uniform_camera {
            bind_groups.push(UniformGroup::Camera);
        }
        if config.uniform_light {
            bind_groups.push(UniformGroup::Light);
        }
        assert(bind_groups@ =~= uniform_groups(
            config.uniform_material,
            config.uniform_camera,
            config.uniform_light,
        ));
        Pipeline {
            name: config.name.clone(),
            bind_groups,
            vertex_shader_path: shader_artifact(config.vertex_shader.as_str()),
            fragment_shader_path: shader_artifact(config.fragment_shader.as_str()),
            vertex_buffer_layout: copy_layouts(&config.vertex_buffer_layout),
        }
    }
}

/// A uniform group is declared by a pipeline exactly when its flag is set,
/// and no group is declared twice.
pub proof fn lemma_group_declared_iff_flag(material: bool, camera: bool, light: bool)
    ensures
        uniform_groups(material, camera, light).contains(UniformGroup::Material) <==> material,
        uniform_groups(material, camera, light).contains(UniformGroup::Camera) <==> camera,
        uniform_groups(material, camera, light).contains(UniformGroup::Light) <==> light,
        uniform_groups(material, camera, light).no_duplicates(),
{
    let groups = uniform_groups(material, camera, light);
    let m: Seq<UniformGroup> = if material {
        seq![UniformGroup::Material]
    } else {
        Seq::empty()
    };
    let c: Seq<UniformGroup> = if camera {
        seq![UniformGroup::Camera]
    } else {
        Seq::empty()
    };
    let l: Seq<UniformGroup> = if light {
        seq![UniformGroup::Light]
    } else {
        Seq::empty()
    };
    assert(groups == m + c + l);
    if material {
        assert(groups[0] == UniformGroup::Material);
    }
    if camera {
        assert(groups[m.len() as int] == UniformGroup::Camera);
    }
    if light {
        assert(groups[(m.len() + c.len()) as int] == UniformGroup::Light);
    }
}

} // verus!
