//! The aggregate root: one loaded model with its meshes, materials,
//! pipelines and instances.
//!
//! `draw` renders the first sub-mesh only, with the first material and the
//! first pipeline, whatever else the model holds. `draw_all` renders every
//! sub-mesh that has a material of the same index.

use crate::buffer::{cast_words, memory_image, pack, packed, InstanceBuffer, InstanceBufferView};
use crate::command::{draw_group, push_draw_group, BindGroupSource, RenderCommand};
use crate::error::{BufferError, LoadError};
use crate::geometry::{aligned, expand_vertices, expansion, is_aligned, Mesh, MeshView, Vertex};
use crate::instance::{instance_of, matrix_words, model_matrix, Instance, Isometry};
use crate::material::{joined, parent_of, path_join, path_parent, Material, MaterialView};
use crate::model::{MaterialEntry, Model};
use crate::pipeline::{
    compiled, object_config, Pipeline, PipelineBuilder, PipelineView, StepMode, UniformGroup,
    VertexBufferLayout,
};
use vstd::prelude::*;
use vstd::string::*;

verus! {

/// One loaded model and its placements in the scene.
#[derive(Clone, Debug, PartialEq, Eq)]
pub struct Object {
    name: String,
    meshes: Vec<Mesh>,
    materials: Vec<Material>,
    instances: Vec<Instance>,
    instance_buffer: InstanceBuffer,
    pipelines: Vec<Pipeline>,
}

/// Mathematical content of an [`Object`].
pub ghost struct ObjectView {
    pub name: Seq<char>,
    pub meshes: Seq<MeshView>,
    pub materials: Seq<MaterialView>,
    pub instances: Seq<Instance>,
    pub instance_buffer: InstanceBufferView,
    pub pipelines: Seq<PipelineView>,
}

/// The contents of a list of meshes.
pub open spec fn mesh_views(meshes: Seq<Mesh>) -> Seq<MeshView> {
    Seq::new(meshes.len(), |i: int| meshes[i]@)
}

/// The contents of a list of materials.
pub open spec fn material_views(materials: Seq<Material>) -> Seq<MaterialView> {
    Seq::new(materials.len(), |i: int| materials[i]@)
}

/// The contents of a list of pipelines.
pub open spec fn pipeline_views(pipelines: Seq<Pipeline>) -> Seq<PipelineView> {
    Seq::new(pipelines.len(), |i: int| pipelines[i]@)
}

/// The two vertex buffer slots of every object pipeline: per-vertex data in
/// slot 0, per-instance model matrices in slot 1.
pub open spec fn object_layouts() -> Seq<VertexBufferLayout> {
    seq![
        VertexBufferLayout { array_stride: 32, step_mode: StepMode::Vertex },
        VertexBufferLayout { array_stride: 64, step_mode: StepMode::Instance },
    ]
}

/// The pipeline of an object called `name`.
pub open spec fn object_pipeline(name: Seq<char>) -> PipelineView {
    compiled(object_config(name, object_layouts()))
}

/// The sub-mesh arrays are aligned and the indices fit a draw range.
pub open spec fn loadable(model: Model) -> bool {
    &&& aligned(model.mesh.positions@, model.mesh.texcoords@, model.mesh.normals@)
    &&& model.mesh.indices@.len() <= u32::MAX
}

/// The mesh that a sub-mesh of a model file is uploaded as.
pub open spec fn mesh_of(model: Model) -> MeshView {
    MeshView {
        name: model.name@,
        vertices: expansion(model.mesh.positions@, model.mesh.texcoords@, model.mesh.normals@),
        indices: model.mesh.indices@,
        size: model.mesh.indices@.len() as u32,
    }
}

/// The materials of a model file with their texture paths resolved against
/// `folder`.
pub open spec fn resolved(entries: Seq<MaterialEntry>, folder: Seq<char>) -> Seq<MaterialView> {
    Seq::new(
        entries.len(),
        |i: int|
            MaterialView {
                name: entries[i].name@,
                diffuse_texture: joined(folder, entries[i].diffuse_texture@),
            },
    )
}

/// The object that is assembled from sub-meshes and materials: one mesh per
/// sub-mesh, one pipeline per material, no instance and an empty instance
/// buffer. This first buffer carries the label `<name> Index Buffer`; every
/// replacement of the instances relabels it `<name> Instance Buffer`.
pub open spec fn assembled(
    models: Seq<Model>,
    materials: Seq<MaterialView>,
    name: Seq<char>,
) -> ObjectView {
    ObjectView {
        name,
        meshes: Seq::new(models.len(), |i: int| mesh_of(models[i])),
        materials,
        instances: Seq::empty(),
        instance_buffer: InstanceBufferView {
            label: name + " Index Buffer"@,
            words: Seq::empty(),
        },
        pipelines: Seq::new(materials.len(), |i: int| object_pipeline(name)),
    }
}

impl ObjectView {
    /// What holds of every object: each mesh records its index count, there
    /// is one pipeline per material and each is the object's pipeline, the
    /// instances fit a draw range, and the instance buffer has room for
    /// exactly one matrix per instance.
    pub open spec fn well_formed(self) -> bool {
        &&& forall|i: int| 0 <= i < self.meshes.len() ==> (#[trigger] self.meshes[i]).well_formed()
        &&& self.pipelines.len() == self.materials.len()
        &&& forall|i: int|
            0 <= i < self.pipelines.len() ==> #[trigger] self.pipelines[i] == object_pipeline(
                self.name,
            )
        &&& self.instances.len() <= u32::MAX
        &&& self.instance_buffer.words.len() == 16 * self.instances.len()
    }

    /// Nothing is stale: every instance carries the matrix of its transform
    /// and the instance buffer holds exactly these matrices, in instance
    /// order.
    pub open spec fn in_sync(self) -> bool {
        &&& forall|i: int|
            0 <= i < self.instances.len() ==> (#[trigger] self.instances[i]).is_current()
        &&& self.instance_buffer.words == packed(self.instances)
    }
}

/// The instances that place the given transforms, in order.
pub open spec fn placed(isometries: Seq<Isometry>) -> Seq<Instance> {
    Seq::new(isometries.len(), |i: int| instance_of(isometries[i]))
}

/// The transforms of the given instances, in order.
pub open spec fn transforms(instances: Seq<Instance>) -> Seq<Isometry> {
    Seq::new(instances.len(), |i: int| instances[i].isometry)
}

impl ObjectView {
    /// The object after its instances are replaced by placements of
    /// `isometries`: the instance buffer is rebuilt from their matrices and
    /// relabelled, everything else stays.
    pub open spec fn with_instances(self, isometries: Seq<Isometry>) -> ObjectView {
        ObjectView {
            instances: placed(isometries),
            instance_buffer: InstanceBufferView {
                label: self.name + " Instance Buffer"@,
                words: packed(placed(isometries)),
            },
            ..self
        }
    }

    /// The object after an update: every instance carries the matrix
    /// recomputed from its transform and the instance buffer holds these
    /// matrices, everything else stays.
    pub open spec fn refreshed(self) -> ObjectView {
        ObjectView {
            instances: placed(transforms(self.instances)),
            instance_buffer: InstanceBufferView {
                label: self.instance_buffer.label,
                words: packed(placed(transforms(self.instances))),
            },
            ..self
        }
    }

    /// The object after instance `index` is given another transform: its
    /// matrix and the instance buffer stay as they are until the next
    /// update.
    pub open spec fn with_transform(self, index: int, isometry: Isometry) -> ObjectView {
        ObjectView {
            instances: self.instances.update(
                index,
                Instance { isometry, uniform: self.instances[index].uniform },
            ),
            ..self
        }
    }

    /// The object has something to draw with: a first mesh and a first
    /// material, hence a first pipeline.
    pub open spec fn drawable(self) -> bool {
        self.meshes.len() > 0 && self.materials.len() > 0
    }

    /// The commands of `draw`: one draw of the first sub-mesh with the first
    /// material and pipeline, over all instances.
    pub open spec fn draw_commands(self) -> Seq<RenderCommand> {
        draw_group(0, 0, self.meshes[0].size, self.instances.len() as u32)
    }

    /// Number of sub-meshes that have a material of their own index.
    pub open spec fn paired_count(self) -> nat {
        if self.meshes.len() <= self.materials.len() {
            self.meshes.len()
        } else {
            self.materials.len()
        }
    }

    /// The commands that draw the first `count` sub-meshes, each with the
    /// material and the pipeline of its own index, over all instances.
    pub open spec fn draw_all_commands(self, count: nat) -> Seq<RenderCommand>
        decreases count,
    {
        if count == 0 {
            Seq::empty()
        } else {
            self.draw_all_commands((count - 1) as nat) + draw_group(
                (count - 1) as usize,
                (count - 1) as usize,
                self.meshes[count - 1].size,
                self.instances.len() as u32,
            )
        }
    }
}

impl Object {
    /// The content of the object.
    pub closed spec fn content(&self) -> ObjectView {
        ObjectView {
            name: self.name@,
            meshes: mesh_views(self.meshes@),
            materials: material_views(self.materials@),
            instances: self.instances@,
            instance_buffer: self.instance_buffer@,
            pipelines: pipeline_views(self.pipelines@),
        }
    }
}

impl View for Object {
    type V = ObjectView;

    open spec fn view(&self) -> ObjectView {
        self.content()
    }
}

/// Copies a list of 32-bit words.
fn copy_words(words: &Vec<u32>) -> (copy: Vec<u32>)
    ensures
        copy@ == words@,
{
    let mut copy: Vec<u32> = Vec::new();
    let mut i: usize = 0;
    while i < words.len()
        invariant
            i <= words@.len(),
            copy@ == words@.subrange(0, i as int),
        decreases words@.len() - i,
    {
        copy.push(words[i]);
        assert(copy@ =~= words@.subrange(0, i + 1));
        i += 1;
    }
    assert(copy@ =~= words@);
    copy
}

impl Object {
    /// Assembles an object from the sub-meshes of a model file and its
    /// materials, whose texture paths are already resolved.
    ///
    /// Fails at the first sub-mesh whose arrays are misaligned or whose
    /// indices are too many, and builds nothing then.
    pub fn from_parts(models: Vec<Model>, materials: Vec<Material>, name: &str) -> (res: Result<
        Object,
        LoadError,
    >)
        ensures
            res is Ok <==> forall|i: int| 0 <= i < models@.len() ==> loadable(#[trigger] models@[i]),
            match res {
                Ok(object) => {
                    &&& object@ == assembled(models@, material_views(materials@), name@)
                    &&& object@.well_formed()
                    &&& object@.in_sync()
                    &&& object@.meshes.len() == models@.len()
                    &&& object@.materials.len() == materials@.len()
                    &&& object@.pipelines.len() == object@.materials.len()
                },
                Err(LoadError::MisalignedGeometry { mesh }) => {
                    &&& mesh < models@.len()
                    &&& forall|j: int| 0 <= j < mesh ==> loadable(#[trigger] models@[j])
                    &&& !aligned(
                        models@[mesh as int].mesh.positions@,
                        models@[mesh as int].mesh.texcoords@,
                        models@[mesh as int].mesh.normals@,
                    )
                },
                Err(LoadError::MeshTooLarge { mesh }) => {
                    &&& mesh < models@.len()
                    &&& forall|j: int| 0 <= j < mesh ==> loadable(#[trigger] models@[j])
                    &&& aligned(
                        models@[mesh as int].mesh.positions@,
                        models@[mesh as int].mesh.texcoords@,
                        models@[mesh as int].mesh.normals@,
                    )
                    &&& models@[mesh as int].mesh.indices@.len() > u32::MAX
                },
                Err(LoadError::NoContainingFolder) => false,
            },
    {
        let mut layouts: Vec<VertexBufferLayout> = Vec::new();
        layouts.push(Vertex::desc());
        layouts.push(Instance::desc());
        assert(layouts@ =~= object_layouts());
        let config = PipelineBuilder::for_object(name, layouts);

        let mut pipelines: Vec<Pipeline> = Vec::new();
        let mut p: usize = 0;
        while p < materials.len()
            invariant
                p <= materials@.len(),
                pipelines@.len() == p,
                config@ == object_config(name@, object_layouts()),
                forall|k: int| 0 <= k < p ==> (#[trigger] pipelines@[k])@ == object_pipeline(name@),
            decreases materials@.len() - p,
        {
            pipelines.push(Pipeline::new(&config));
            p += 1;
        }

        let mut meshes: Vec<Mesh> = Vec::new();
        let mut m: usize = 0;
        while m < models.len()
            invariant
                m <= models@.len(),
                meshes@.len() == m,
                forall|j: int| 0 <= j < m ==> loadable(#[trigger] models@[j]),
                forall|j: int| 0 <= j < m ==> (#[trigger] meshes@[j])@ == mesh_of(models@[j]),
            decreases models@.len() - m,
        {
            let model = &models[m];
            if !is_aligned(&model.mesh.positions, &model.mesh.texcoords, &model.mesh.normals) {
                return Err(LoadError::MisalignedGeometry { mesh: m });
            }
            let vertices = expand_vertices(
                &model.mesh.positions,
                &model.mesh.texcoords,
                &model.mesh.normals,
            );
            match Mesh::new(vertices, copy_words(&model.mesh.indices), model.name.as_str()) {
                Ok(mesh) => {
                    meshes.push(mesh);
                },
                Err(_) => {
                    return Err(LoadError::MeshTooLarge { mesh: m });
                },
            }
            m += 1;
        }

        let object = Object {
            name: String::from_str(name),
            meshes,
            materials,
            instances: Vec::new(),
            instance_buffer: InstanceBuffer {
                label: String::from_str(name).concat(" Index Buffer"),
                words: Vec::new(),
            },
            pipelines,
        };
        proof {
            let want = assembled(models@, material_views(materials@), name@);
            assert(object@.meshes =~= want.meshes);
            assert(object@.pipelines =~= want.pipelines);
            assert(object@.instances =~= want.instances);
            assert(object@.instance_buffer.words =~= want.instance_buffer.words);
            assert(packed(object@.instances) =~= Seq::<u32>::empty());
        }
        Ok(object)
    }

    /// Builds the object of a parsed model file.
    ///
    /// `path` is the path of the model file: every material's texture path
    /// is resolved against its folder. Then there is one mesh per sub-mesh,
    /// one pipeline per material, and no instance.
    ///
    /// Fails when `path` names no containing folder, or at the first
    /// sub-mesh that cannot be loaded; nothing is built then.
    pub fn load(models: Vec<Model>, materials: Vec<MaterialEntry>, path: &str, name: &str) -> (res:
        Result<Object, LoadError>)
        ensures
            res is Ok <==> parent_of(path@) is Some && forall|i: int|
                0 <= i < models@.len() ==> loadable(#[trigger] models@[i]),
            match res {
                Ok(object) => {
                    &&& parent_of(path@) matches Some(folder) && object@ == assembled(
                        models@,
                        resolved(materials@, folder),
                        name@,
                    )
                    &&& object@.well_formed()
                    &&& object@.in_sync()
                    &&& object@.meshes.len() == models@.len()
                    &&& object@.materials.len() == materials@.len()
                    &&& object@.pipelines.len() == object@.materials.len()
                },
                Err(LoadError::NoContainingFolder) => parent_of(path@) is None,
                Err(LoadError::MisalignedGeometry { mesh }) => {
                    &&& parent_of(path@) is Some
                    &&& mesh < models@.len()
                    &&& forall|j: int| 0 <= j < mesh ==> loadable(#[trigger] models@[j])
                    &&& !aligned(
                        models@[mesh as int].mesh.positions@,
                        models@[mesh as int].mesh.texcoords@,
                        models@[mesh as int].mesh.normals@,
                    )
                },
                Err(LoadError::MeshTooLarge { mesh }) => {
                    &&& parent_of(path@) is Some
                    &&& mesh < models@.len()
                    &&& forall|j: int| 0 <= j < mesh ==> loadable(#[trigger] models@[j])
                    &&& aligned(
                        models@[mesh as int].mesh.positions@,
                        models@[mesh as int].mesh.texcoords@,
                        models@[mesh as int].mesh.normals@,
                    )
                    &&& models@[mesh as int].mesh.indices@.len() > u32::MAX
                },
            },
    {
        let folder = match path_parent(path) {
            Some(folder) => folder,
            None => {
                return Err(LoadError::NoContainingFolder);
            },
        };
        let mut built: Vec<Material> = Vec::new();
        let mut i: usize = 0;
        while i < materials.len()
            invariant
                i <= materials@.len(),
                built@.len() == i,
                forall|k: int|
                    0 <= k < i ==> (#[trigger] built@[k])@ == resolved(materials@, folder@)[k],
            decreases materials@.len() - i,
        {
            let entry = &materials[i];
            let texture = path_join(folder.as_str(), entry.diffuse_texture.as_str());
            built.push(Material::build(texture, entry.name.as_str()));
            i += 1;
        }
        assert(material_views(built@) =~= resolved(materials@, folder@));
        Object::from_parts(models, built, name)
    }
}

impl Object {
    /// Replaces the instances by placements of `isometries`, in order, and
    /// rebuilds the instance buffer from their matrices. Nothing of the
    /// previous instances stays.
    ///
    /// Fails, and changes nothing, when there are more transforms than a
    /// draw range can count.
    pub fn add_instance(&mut self, isometries: Vec<Isometry>) -> (res: Result<(), BufferError>)
        requires
            old(self)@.well_formed(),
        ensures
            res is Ok <==> isometries@.len() <= u32::MAX,
            res is Ok ==> final(self)@ == old(self)@.with_instances(isometries@),
            res is Ok ==> final(self)@.instances.len() == isometries@.len(),
            res is Ok ==> final(self)@.instance_buffer.entries() == isometries@.len(),
            res is Ok ==> final(self)@.in_sync(),
            res matches Err(e) ==> e == BufferError::TooLarge && final(self)@ == old(self)@,
            final(self)@.well_formed(),
    {
        if isometries.len() > u32::MAX as usize {
            return Err(BufferError::TooLarge);
        }
        let mut instances: Vec<Instance> = Vec::new();
        let mut i: usize = 0;
        while i < isometries.len()
            invariant
                i <= isometries@.len(),
                instances@.len() == i,
                forall|k: int| 0 <= k < i ==> #[trigger] instances@[k] == instance_of(isometries@[k]),
            decreases isometries@.len() - i,
        {
            instances.push(Instance::new(isometries[i]));
            i += 1;
        }
        assert(instances@ =~= placed(isometries@));
        let words = pack(&instances);
        let label = self.name.clone().concat(" Instance Buffer");
        self.instances = instances;
        self.instance_buffer = InstanceBuffer { label, words };
        proof {
            let now = self@;
            assert(now.meshes == old(self)@.meshes);
            assert(now.pipelines == old(self)@.pipelines);
            assert(now.materials == old(self)@.materials);
            assert forall|k: int| 0 <= k < now.instances.len() implies (
            #[trigger] now.instances[k]).is_current() by {
                assert(now.instances[k] == instance_of(isometries@[k]));
            }
            assert(now.instance_buffer.words.len() == 16 * isometries@.len());
            assert(now.instance_buffer.entries() == isometries@.len());
        }
        Ok(())
    }

    /// Replaces the instances by placements of `isometries`: clears the
    /// current instances, then behaves as `add_instance`.
    pub fn set_instance(&mut self, isometries: Vec<Isometry>) -> (res: Result<(), BufferError>)
        requires
            old(self)@.well_formed(),
        ensures
            res is Ok <==> isometries@.len() <= u32::MAX,
            res is Ok ==> final(self)@ == old(self)@.with_instances(isometries@),
            res is Ok ==> final(self)@.instances.len() == isometries@.len(),
            res is Ok ==> final(self)@.instance_buffer.entries() == isometries@.len(),
            res is Ok ==> final(self)@.in_sync(),
            res matches Err(e) ==> e == BufferError::TooLarge && final(self)@ == old(self)@,
            final(self)@.well_formed(),
    {
        if isometries.len() > u32::MAX as usize {
            return Err(BufferError::TooLarge);
        }
        self.instances.clear();
        self.instance_buffer.words.clear();
        proof {
            let now = self@;
            assert(now.meshes == old(self)@.meshes);
            assert(now.pipelines == old(self)@.pipelines);
            assert(now.materials == old(self)@.materials);
            assert(now.name == old(self)@.name);
            assert(now.instance_buffer.words.len() == 0);
            assert(now.well_formed());
            assert(now.with_instances(isometries@) == old(self)@.with_instances(isometries@));
        }
        self.add_instance(isometries)
    }

    /// Gives instance `index` another transform. Its matrix and the instance
    /// buffer keep their content until the next update.
    pub fn set_transform(&mut self, index: usize, isometry: Isometry)
        requires
            old(self)@.well_formed(),
            index < old(self)@.instances.len(),
        ensures
            final(self)@ == old(self)@.with_transform(index as int, isometry),
            final(self)@.instance_buffer == old(self)@.instance_buffer,
            final(self)@.instances.len() == old(self)@.instances.len(),
            final(self)@.well_formed(),
    {
        let mut instance = self.instances[index];
        instance.isometry = isometry;
        self.instances.set(index, instance);
        proof {
            let now = self@;
            assert(now.meshes == old(self)@.meshes);
            assert(now.pipelines == old(self)@.pipelines);
            assert(now.materials == old(self)@.materials);
        }
    }

    /// Recomputes the model matrix of every instance from its transform and
    /// rewrites the whole instance buffer with these matrices, in instance
    /// order.
    pub fn on_update(&mut self)
        requires
            old(self)@.well_formed(),
        ensures
            final(self)@ == old(self)@.refreshed(),
            final(self)@.instance_buffer.words == packed(final(self)@.instances),
            final(self)@.in_sync(),
            final(self)@.well_formed(),
    {
        let count: usize = self.instances.len();
        let mut i: usize = 0;
        while i < count
            invariant
                i <= count,
                count == old(self)@.instances.len(),
                self.instances@.len() == count,
                forall|k: int|
                    0 <= k < i ==> #[trigger] self.instances@[k] == instance_of(
                        old(self)@.instances[k].isometry,
                    ),
                forall|k: int|
                    i <= k < count ==> #[trigger] self.instances@[k] == old(self)@.instances[k],
                self.name == old(self).name,
                self.meshes == old(self).meshes,
                self.materials == old(self).materials,
                self.pipelines == old(self).pipelines,
                self.instance_buffer == old(self).instance_buffer,
            decreases count - i,
        {
            let mut instance = self.instances[i];
            instance.update();
            self.instances.set(i, instance);
            i += 1;
        }
        assert(self.instances@ =~= placed(transforms(old(self)@.instances)));
        self.instance_buffer.words = pack(&self.instances);
        proof {
            let now = self@;
            assert(now.meshes == old(self)@.meshes);
            assert(now.pipelines == old(self)@.pipelines);
            assert(now.materials == old(self)@.materials);
            assert forall|k: int| 0 <= k < now.instances.len() implies (
            #[trigger] now.instances[k]).is_current() by {
                assert(now.instances[k] == instance_of(old(self)@.instances[k].isometry));
            }
        }
    }

    /// The commands that render every instance of the first sub-mesh with
    /// the first material and the first pipeline: exactly one indexed,
    /// instanced draw. Other sub-meshes and materials are not drawn.
    pub fn draw(&self) -> (commands: Vec<RenderCommand>)
        requires
            self@.well_formed(),
            self@.drawable(),
        ensures
            commands@ == self@.draw_commands(),
    {
        let mut commands: Vec<RenderCommand> = Vec::new();
        push_draw_group(&mut commands, 0, 0, self.meshes[0].size, self.instances.len() as u32);
        commands
    }

    /// The commands that render every instance of every sub-mesh that has a
    /// material of its own index, one indexed, instanced draw per sub-mesh,
    /// each with the material and the pipeline of that index.
    pub fn draw_all(&self) -> (commands: Vec<RenderCommand>)
        requires
            self@.well_formed(),
        ensures
            commands@ == self@.draw_all_commands(self@.paired_count()),
    {
        let count: usize = if self.meshes.len() <= self.materials.len() {
            self.meshes.len()
        } else {
            self.materials.len()
        };
        let instances: u32 = self.instances.len() as u32;
        let mut commands: Vec<RenderCommand> = Vec::new();
        let mut i: usize = 0;
        while i < count
            invariant
                i <= count,
                count == self@.paired_count(),
                instances == self@.instances.len() as u32,
                commands@ == self@.draw_all_commands(i as nat),
            decreases count - i,
        {
            push_draw_group(&mut commands, i, i, self.meshes[i].size, instances);
            i += 1;
        }
        commands
    }

    /// Whether `draw` has a first mesh and a first material to draw with.
    pub fn is_drawable(&self) -> (ok: bool)
        ensures
            ok == self@.drawable(),
    {
        self.meshes.len() > 0 && self.materials.len() > 0
    }

    /// The bytes of the instance buffer as they are uploaded: the memory
    /// image of its words, sixty-four bytes for every instance. When nothing
    /// is stale these are the matrices of all instances, in instance order.
    pub fn instance_bytes(&self) -> (bytes: Vec<u8>)
        requires
            self@.well_formed(),
        ensures
            bytes@ == memory_image(self@.instance_buffer.words),
            bytes@.len() == 64 * self@.instances.len(),
            self@.in_sync() ==> bytes@ == memory_image(packed(self@.instances)),
    {
        cast_words(&self.instance_buffer.words)
    }

    /// The display name of the object.
    pub fn name(&self) -> (name: &String)
        ensures
            name@ == self@.name,
    {
        &self.name
    }

    /// The sub-meshes, in the order of the model file.
    pub fn meshes(&self) -> (meshes: &Vec<Mesh>)
        ensures
            mesh_views(meshes@) == self@.meshes,
    {
        &self.meshes
    }

    /// The materials, in the order of the model file.
    pub fn materials(&self) -> (materials: &Vec<Material>)
        ensures
            material_views(materials@) == self@.materials,
    {
        &self.materials
    }

    /// The pipelines, one per material.
    pub fn pipelines(&self) -> (pipelines: &Vec<Pipeline>)
        ensures
            pipeline_views(pipelines@) == self@.pipelines,
    {
        &self.pipelines
    }

    /// The current instances, in buffer order.
    pub fn instances(&self) -> (instances: &Vec<Instance>)
        ensures
            instances@ == self@.instances,
    {
        &self.instances
    }

    /// The content of the instance buffer.
    pub fn instance_buffer(&self) -> (buffer: &InstanceBuffer)
        ensures
            buffer@ == self@.instance_buffer,
    {
        &self.instance_buffer
    }
}

/// Replacing the instances by none leaves no instance and an instance
/// buffer without entries; a draw then covers the empty instance range.
pub proof fn lemma_no_instances(object: ObjectView)
    requires
        object.well_formed(),
    ensures
        object.with_instances(Seq::empty()).well_formed(),
        object.with_instances(Seq::empty()).in_sync(),
        object.with_instances(Seq::empty()).instances.len() == 0,
        object.with_instances(Seq::empty()).instance_buffer.words.len() == 0,
        object.with_instances(Seq::empty()).instance_buffer.entries() == 0,
        object.drawable() ==> object.with_instances(Seq::empty()).draw_commands() == draw_group(
            0,
            0,
            object.meshes[0].size,
            0,
        ),
{
    lemma_replacement_well_formed(object, Seq::empty());
}

/// Replacing the instances keeps an object well formed and leaves nothing
/// stale, as long as the new instances fit a draw range.
pub proof fn lemma_replacement_well_formed(object: ObjectView, isometries: Seq<Isometry>)
    requires
        object.well_formed(),
        isometries.len() <= u32::MAX,
    ensures
        object.with_instances(isometries).well_formed(),
        object.with_instances(isometries).in_sync(),
        object.with_instances(isometries).instances.len() == isometries.len(),
        object.with_instances(isometries).instance_buffer.entries() == isometries.len(),
{
    let after = object.with_instances(isometries);
    assert forall|k: int| 0 <= k < after.instances.len() implies (#[trigger] after.instances[k]).is_current() by {
        assert(after.instances[k] == instance_of(isometries[k]));
    }
}

/// Replacing the instances twice leaves exactly the second set: nothing of
/// the first set stays, neither among the instances nor in the buffer.
pub proof fn lemma_replacement_forgets(
    object: ObjectView,
    first: Seq<Isometry>,
    second: Seq<Isometry>,
)
    ensures
        object.with_instances(first).with_instances(second) == object.with_instances(second),
        object.with_instances(first).with_instances(second).instances.len() == second.len(),
        object.with_instances(first).with_instances(second).instances == placed(second),
        object.with_instances(first).with_instances(second).instance_buffer.words == packed(
            placed(second),
        ),
{
}

/// An update keeps an object well formed and leaves nothing stale, whatever
/// was stale before.
pub proof fn lemma_update_syncs(object: ObjectView)
    requires
        object.well_formed(),
    ensures
        object.refreshed().well_formed(),
        object.refreshed().in_sync(),
        object.refreshed().instances.len() == object.instances.len(),
        transforms(object.refreshed().instances) == transforms(object.instances),
{
    let after = object.refreshed();
    assert forall|k: int| 0 <= k < after.instances.len() implies (#[trigger] after.instances[k]).is_current() by {
        assert(after.instances[k] == instance_of(object.instances[k].isometry));
    }
    assert(transforms(after.instances) =~= transforms(object.instances));
}

/// After an update the instance buffer holds, for every instance and in
/// instance order, the sixteen words of the matrix recomputed from that
/// instance's transform.
pub proof fn lemma_update_fills_buffer(object: ObjectView, i: int)
    requires
        0 <= i < object.instances.len(),
    ensures
        object.refreshed().instances.len() == object.instances.len(),
        object.refreshed().instance_buffer.words.len() == 16 * object.instances.len(),
        object.refreshed().instance_buffer.words.subrange(16 * i, 16 * i + 16) == matrix_words(
            model_matrix(object.instances[i].isometry),
        ),
        object.refreshed().instances[i] == instance_of(object.instances[i].isometry),
{
    let after = object.refreshed();
    let words = after.instance_buffer.words;
    let entry = matrix_words(model_matrix(object.instances[i].isometry));
    assert(after.instances[i] == instance_of(object.instances[i].isometry));
    assert forall|k: int| 0 <= k < 16 implies words.subrange(16 * i, 16 * i + 16)[k] == entry[k] by {
        assert((16 * i + k) / 16 == i);
        assert((16 * i + k) % 16 == k);
    }
    assert(words.subrange(16 * i, 16 * i + 16) =~= entry);
}

/// After a transform is changed and the object is updated, the buffer entry
/// of that instance is the matrix of the new transform and every other
/// entry is the matrix of its unchanged transform.
pub proof fn lemma_update_after_transform(
    object: ObjectView,
    index: int,
    isometry: Isometry,
    i: int,
)
    requires
        0 <= index < object.instances.len(),
        0 <= i < object.instances.len(),
    ensures
        object.with_transform(index, isometry).refreshed().instance_buffer.words.subrange(
            16 * i,
            16 * i + 16,
        ) == matrix_words(
            model_matrix(
                if i == index {
                    isometry
                } else {
                    object.instances[i].isometry
                },
            ),
        ),
{
    lemma_update_fills_buffer(object.with_transform(index, isometry), i);
}

/// An update of an object in which nothing is stale changes nothing.
pub proof fn lemma_update_of_synced(object: ObjectView)
    requires
        object.in_sync(),
    ensures
        object.refreshed() == object,
{
    let after = object.refreshed();
    assert forall|k: int| 0 <= k < object.instances.len() implies after.instances[k]
        == object.instances[k] by {
        assert(object.instances[k].is_current());
    }
    assert(after.instances =~= object.instances);
}

/// Updating twice gives what updating once gives: the same instances and
/// the same buffer content.
pub proof fn lemma_update_idempotent(object: ObjectView)
    ensures
        object.refreshed().refreshed() == object.refreshed(),
        object.refreshed().refreshed().instance_buffer.words
            == object.refreshed().instance_buffer.words,
{
    let once = object.refreshed();
    let twice = once.refreshed();
    assert(twice.instances =~= once.instances);
}

/// The uniform groups that a draw binds are the ones the first pipeline
/// declares, in the slots it declares them in, and its two vertex buffer
/// slots have the strides of a vertex and of a model matrix.
pub proof fn lemma_draw_matches_pipeline(object: ObjectView)
    requires
        object.well_formed(),
        object.drawable(),
    ensures
        object.pipelines[0].bind_groups == seq![UniformGroup::Material, UniformGroup::Camera],
        object.draw_commands()[1] == (RenderCommand::SetBindGroup {
            slot: 0,
            group: BindGroupSource::Material(0),
        }),
        object.draw_commands()[2] == (RenderCommand::SetBindGroup {
            slot: 1,
            group: BindGroupSource::Camera,
        }),
        object.pipelines[0].vertex_buffer_layout == object_layouts(),
{
    assert(object.pipelines[0] == object_pipeline(object.name));
    assert(object.pipelines[0].bind_groups =~= seq![UniformGroup::Material, UniformGroup::Camera]);
}

/// For an object with a single sub-mesh and at least one material, drawing
/// every sub-mesh is drawing the first.
pub proof fn lemma_draw_all_of_single_mesh(object: ObjectView)
    requires
        object.meshes.len() == 1,
        object.materials.len() >= 1,
    ensures
        object.draw_all_commands(object.paired_count()) == object.draw_commands(),
{
    reveal_with_fuel(ObjectView::draw_all_commands, 2);
    assert(object.draw_all_commands(1) =~= object.draw_commands());
}

/// Drawing every sub-mesh issues seven commands per paired sub-mesh, the
/// last of each seven being its draw over all instances.
pub proof fn lemma_draw_all_shape(object: ObjectView, count: nat, i: int)
    requires
        0 <= i < count,
        count <= usize::MAX,
    ensures
        object.draw_all_commands(count).len() == 7 * count,
        object.draw_all_commands(count).subrange(7 * i, 7 * i + 7) == draw_group(
            i as usize,
            i as usize,
            object.meshes[i].size,
            object.instances.len() as u32,
        ),
    decreases count,
{
    let all = object.draw_all_commands(count);
    let before = object.draw_all_commands((count - 1) as nat);
    let last = draw_group(
        (count - 1) as usize,
        (count - 1) as usize,
        object.meshes[count - 1].size,
        object.instances.len() as u32,
    );
    assert(all == before + last);
    if count >= 2 {
        lemma_draw_all_shape(object, (count - 1) as nat, if i < count - 1 { i } else { 0 });
    } else {
        assert(before.len() == 0);
    }
    assert(before.len() == 7 * (count - 1));
    if i < count - 1 {
        assert(all.subrange(7 * i, 7 * i + 7) =~= before.subrange(7 * i, 7 * i + 7));
    } else {
        assert(all.subrange(7 * i, 7 * i + 7) =~= last);
    }
}

} // verus!
