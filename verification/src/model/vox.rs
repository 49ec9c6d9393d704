//! From a MagicaVoxel scene to the instances that the renderer draws.
use crate::model::{Instance, InstanceView};
use vstd::prelude::*;

verus! {

/// A voxel of a model: a lattice position and an index into the palette.
#[derive(Clone, Copy, Debug, PartialEq, Eq)]
pub struct Voxel {
    pub x: u8,
    pub y: u8,
    pub z: u8,
    pub i: u8,
}

/// The extent of a model, in voxels.
#[derive(Clone, Copy, Debug, PartialEq, Eq)]
pub struct Size {
    pub x: u32,
    pub y: u32,
    pub z: u32,
}

/// A palette entry.
#[derive(Clone, Copy, Debug, PartialEq, Eq)]
pub struct Color {
    pub r: u8,
    pub g: u8,
    pub b: u8,
    pub a: u8,
}

/// One model of a scene.
#[derive(Clone, Debug, PartialEq, Eq)]
pub struct Model {
    pub size: Size,
    pub voxels: Vec<Voxel>,
}

/// The mathematical value of a [`Model`].
pub struct ModelView {
    pub size: Size,
    pub voxels: Seq<Voxel>,
}

impl View for Model {
    type V = ModelView;

    open spec fn view(&self) -> ModelView {
        ModelView { size: self.size, voxels: self.voxels@ }
    }
}

/// What the viewer reads of a scene: its models, and its palette.
#[derive(Clone, Debug, PartialEq, Eq)]
pub struct VoxData {
    pub models: Vec<Model>,
    pub palette: Vec<Color>,
}

/// The mathematical value of a [`VoxData`].
pub struct VoxDataView {
    pub models: Seq<ModelView>,
    pub palette: Seq<Color>,
}

impl View for VoxData {
    type V = VoxDataView;

    open spec fn view(&self) -> VoxDataView {
        VoxDataView { models: self.models@.map_values(|m: Model| m@), palette: self.palette@ }
    }
}

/// Entry `i` of MagicaVoxel's default palette.
pub uninterp spec fn default_palette(i: u8) -> Color;

/// The scene that a `.vox` file holds, or `None` if the bytes are no such
/// file.
pub uninterp spec fn parsed_vox(bytes: Seq<u8>) -> Option<VoxDataView>;

/// Reads entry `i` of `dot_vox::DEFAULT_PALETTE`, the palette that
/// MagicaVoxel uses where a file brings none. The table is a constant of 256
/// colours, so every `i` is in range. Trusted, not proved: the colour depends
/// on `i` alone, which is what [`default_palette`] names.
#[verifier::external_body]
fn default_color(i: u8) -> (c: Color)
    ensures
        c == default_palette(i),
{
    let c = dot_vox::DEFAULT_PALETTE[usize::from(i)];
    Color { r: c.r, g: c.g, b: c.b, a: c.a }
}

/// Parses a `.vox` file with `dot_vox::load_bytes`, and copies the models
/// and the palette out of what it returns, field by field; an error becomes
/// `None`. Trusted, not proved: the parser returns on every input, as its
/// documentation says, and what it returns depends on the bytes alone, which
/// is what [`parsed_vox`] names.
#[verifier::external_body]
fn parse_vox(bytes: &[u8]) -> (r: Option<VoxData>)
    ensures
        match r {
            Some(data) => parsed_vox(bytes@) == Some(data@),
            None => parsed_vox(bytes@) is None,
        },
{
    let data = dot_vox::load_bytes(bytes).ok()?;
    let voxel = |v: &dot_vox::Voxel| Voxel { x: v.x, y: v.y, z: v.z, i: v.i };
    let model = |m: &dot_vox::Model| Model {
        size: Size { x: m.size.x, y: m.size.y, z: m.size.z },
        voxels: m.voxels.iter().map(voxel).collect(),
    };
    let color = |c: &dot_vox::Color| Color { r: c.r, g: c.g, b: c.b, a: c.a };
    Some(VoxData {
        models: data.models.iter().map(model).collect(),
        palette: data.palette.iter().map(color).collect(),
    })
}

/// The colour of palette index `i`: the scene's own entry where the palette
/// reaches that far, the default palette's entry where it does not.
pub open spec fn spec_palette_color(palette: Seq<Color>, i: u8) -> Color {
    if (i as int) < palette.len() {
        palette[i as int]
    } else {
        default_palette(i)
    }
}

/// The instance that draws `voxel`: at the voxel's position, padded with a
/// zero byte, in the colour of its palette index.
pub open spec fn voxel_instance(voxel: Voxel, palette: Seq<Color>) -> InstanceView {
    let c = spec_palette_color(palette, voxel.i);
    InstanceView { position: seq![voxel.x, voxel.y, voxel.z, 0u8], color: seq![c.r, c.g, c.b, c.a] }
}

/// The instances of one model, in the order of its voxels.
pub open spec fn model_instances(model: ModelView, palette: Seq<Color>) -> Seq<InstanceView> {
    model.voxels.map_values(|v: Voxel| voxel_instance(v, palette))
}

/// The instances of a scene: those of its models, one model after the other.
pub open spec fn scene_instances(models: Seq<ModelView>, palette: Seq<Color>) -> Seq<InstanceView>
    decreases models.len(),
{
    if models.len() == 0 {
        Seq::empty()
    } else {
        scene_instances(models.drop_last(), palette) + model_instances(models.last(), palette)
    }
}

/// The larger of two extents, axis by axis.
pub open spec fn spec_max_size(a: Size, b: Size) -> Size {
    Size {
        x: if a.x >= b.x { a.x } else { b.x },
        y: if a.y >= b.y { a.y } else { b.y },
        z: if a.z >= b.z { a.z } else { b.z },
    }
}

/// The extent of a scene: on each axis the largest extent of a model, and
/// zero for a scene without models.
pub open spec fn scene_size(models: Seq<ModelView>) -> Size
    decreases models.len(),
{
    if models.len() == 0 {
        Size { x: 0, y: 0, z: 0 }
    } else {
        spec_max_size(scene_size(models.drop_last()), models.last().size)
    }
}

/// The views of a list of instances.
pub open spec fn instance_views(instances: Seq<Instance>) -> Seq<InstanceView> {
    instances.map_values(|i: Instance| i@)
}

/// Looks up the colour of palette index `i`.
pub fn palette_color(palette: &Vec<Color>, i: u8) -> (c: Color)
    ensures
        c == spec_palette_color(palette@, i),
{
    let index: usize = i as usize;
    if index < palette.len() {
        palette[index]
    } else {
        default_color(i)
    }
}

/// The larger of two extents, axis by axis.
pub fn max_size(a: Size, b: Size) -> (m: Size)
    ensures
        m == spec_max_size(a, b),
{
    Size {
        x: if a.x >= b.x { a.x } else { b.x },
        y: if a.y >= b.y { a.y } else { b.y },
        z: if a.z >= b.z { a.z } else { b.z },
    }
}

/// Turns a scene into the instances that draw it, and measures its extent.
pub fn build_instances(data: &VoxData) -> (r: (Vec<Instance>, Size))
    ensures
        instance_views(r.0@) == scene_instances(data@.models, data@.palette),
        r.1 == scene_size(data@.models),
{
    let mut instances: Vec<Instance> = Vec::new();
    let mut dimensions = Size { x: 0, y: 0, z: 0 };
    let ghost models = data@.models;
    let ghost palette = data@.palette;
    let mut m: usize = 0;
    while m < data.models.len()
        invariant
            m <= data.models.len(),
            models == data@.models,
            palette == data@.palette,
            instance_views(instances@) == scene_instances(models.take(m as int), palette),
            dimensions == scene_size(models.take(m as int)),
        decreases data.models.len() - m,
    {
        let model = &data.models[m];
        let ghost before = instance_views(instances@);
        assert(models.take(m as int + 1).drop_last() == models.take(m as int));
        assert(models.take(m as int + 1).last() == model@);
        let mut k: usize = 0;
        while k < model.voxels.len()
            invariant
                k <= model.voxels.len(),
                palette == data@.palette,
                instance_views(instances@) == before + model_instances(model@, palette).take(k as int),
            decreases model.voxels.len() - k,
        {
            let voxel = model.voxels[k];
            let c = palette_color(&data.palette, voxel.i);
            let instance = Instance::new([voxel.x, voxel.y, voxel.z, 0], [c.r, c.g, c.b, c.a]);
            assert(instance@ == voxel_instance(voxel, palette));
            let ghost grown = instance_views(instances@).push(instance@);
            instances.push(instance);
            assert(instance_views(instances@) == grown);
            assert(model_instances(model@, palette).take(k as int + 1) == model_instances(
                model@,
                palette,
            ).take(k as int).push(voxel_instance(voxel, palette)));
            k += 1;
        }
        assert(model_instances(model@, palette).take(k as int) == model_instances(model@, palette));
        dimensions = max_size(dimensions, model.size);
        m += 1;
    }
    assert(models.take(m as int) == models);
    (instances, dimensions)
}

/// Reads a `.vox` file that is already in memory: the instances that draw
/// its scene, and the scene's extent. `None` if the bytes are no `.vox`
/// file.
pub fn load(vox_bytes: &[u8]) -> (r: Option<(Vec<Instance>, Size)>)
    ensures
        match parsed_vox(vox_bytes@) {
            Some(data) => r matches Some((instances, dimensions)) && instance_views(instances@)
                == scene_instances(data.models, data.palette) && dimensions == scene_size(data.models),
            None => r is None,
        },
{
    match parse_vox(vox_bytes) {
        Some(data) => Some(build_instances(&data)),
        None => None,
    }
}

} // verus!
