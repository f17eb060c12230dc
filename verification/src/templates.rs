//! Templates of the objects of a drawing: the raw handle values an object
//! refers to, kept until every object is read and the handles can be
//! resolved.

use vstd::prelude::*;
use std::collections::HashMap;

verus! {

/// A single extended-data record with the handle of the application that
/// registered it (not resolved); `V` is the type of the values.
#[derive(Debug, Clone)]
pub struct EDataTemplateEntry<V> {
    /// Handle of the APPID object that registered the data.
    pub app_handle: u64,
    /// The values.
    pub values: Vec<V>,
}

/// The extended data of an object, in the order read.
#[derive(Debug, Clone, Default)]
pub struct EDataTemplate<V> {
    pub entries: Vec<EDataTemplateEntry<V>>,
}

impl<V> EDataTemplate<V> {
    /// An empty extended-data container.
    pub fn new() -> (r: Self)
        ensures
            r.entries@.len() == 0,
    {
        EDataTemplate { entries: Vec::new() }
    }

    /// Append the record of `app_handle` with `values`.
    pub fn add(&mut self, app_handle: u64, values: Vec<V>)
        ensures
            final(self).entries@.len() == old(self).entries@.len() + 1,
            final(self).entries@.drop_last() == old(self).entries@,
            final(self).entries@.last().app_handle == app_handle,
            final(self).entries@.last().values == values,
    {
        self.entries.push(EDataTemplateEntry { app_handle, values });
        assert(self.entries@.drop_last() =~= old(self).entries@);
    }
}

/// Fields common to every DWG template (entity AND non-entity alike).
#[derive(Debug, Clone, Default)]
pub struct CadTemplateCommon<V> {
    /// The object's own handle (read from the object).
    pub handle: u64,
    /// Owner handle (soft pointer to owning object).
    pub owner_handle: u64,
    /// Reactor handles (soft pointer).
    pub reactor_handles: Vec<u64>,
    /// Extended dictionary handle (hard owner), 0 if absent.
    pub xdict_handle: u64,
    /// Extended data template (EED).
    pub edata: EDataTemplate<V>,
}

/// Template fields specific to graphical entities.
#[derive(Debug, Clone, Default)]
pub struct CadEntityTemplateData {
    // ---- Common entity data ----
    /// Entity mode (BB): 0=owner handle present, 1=pspace, 2=mspace, 3=n/a
    pub entity_mode: u8,
    /// Previous entity handle (for linked-list traversal, R13-R2000).
    pub prev_entity: u64,
    /// Next entity handle (for linked-list traversal, R13-R2000).
    pub next_entity: u64,
    /// Layer handle (hard pointer).
    pub layer_handle: u64,
    /// Linetype handle (hard pointer), 0 if bylayer.
    pub linetype_handle: u64,
    /// Linetype flags (BB): 00=bylayer, 01=byblock, 10=continuous, 11=handle present.
    pub ltype_flags: u8,
    /// Plotstyle handle (hard pointer), 0 if bylayer.
    pub plotstyle_handle: u64,
    /// Material handle (R2007+), 0 if bylayer.
    pub material_handle: u64,
    /// Color book color handle (R2004+), 0 if none.
    pub color_handle: u64,
}

/// Template for text/attribute entities (holds style handle).
#[derive(Debug, Clone, Default)]
pub struct CadTextEntityTemplateData {
    pub style_handle: u64,
}

/// Template for INSERT / MINSERT entities.
#[derive(Debug, Clone, Default)]
pub struct CadInsertTemplateData {
    pub block_header_handle: u64,
    pub has_atts: bool,
    pub owned_objects_count: i32,
    pub first_attribute_handle: u64,
    pub end_attribute_handle: u64,
    pub owned_objects_handles: Vec<u64>,
    pub seqend_handle: u64,
}

/// Template for polyline entities (2D/3D/mesh/polyface).
#[derive(Debug, Clone, Default)]
pub struct CadPolylineTemplateData {
    pub first_vertex_handle: u64,
    pub last_vertex_handle: u64,
    pub owned_objects_handles: Vec<u64>,
    pub seqend_handle: u64,
}

/// Template for dimension entities.
#[derive(Debug, Clone, Default)]
pub struct CadDimensionTemplateData {
    pub style_handle: u64,
    pub block_handle: u64,
}

/// Template for leader entities.
#[derive(Debug, Clone, Default)]
pub struct CadLeaderTemplateData {
    pub annotation_handle: u64,
    pub dimstyle_handle: u64,
    /// The arrow size (IEEE-754 bit pattern).
    pub dimasz: u64,
}

/// Template for multileader entities.
#[derive(Debug, Clone, Default)]
pub struct CadMultiLeaderTemplateData {
    pub leader_style_handle: u64,
    pub leader_line_type_handle: u64,
    pub arrowhead_handle: u64,
    pub mtext_style_handle: u64,
    pub block_content_handle: u64,
    pub arrowhead_handles: Vec<(u64, bool)>,
    pub block_attribute_handles: Vec<u64>,
    pub annot_context_data: CadMultiLeaderAnnotContextTemplateData,
}

/// Template data for a MultiLeader annotation context sub-object.
#[derive(Debug, Clone, Default)]
pub struct CadMultiLeaderAnnotContextTemplateData {
    pub mtext_style_handle: u64,
    pub block_table_handle: u64,
    pub arrowhead_handles: Vec<u64>,
    pub block_attribute_handles: Vec<u64>,
}

/// Template for shape entities.
#[derive(Debug, Clone, Default)]
pub struct CadShapeTemplateData {
    pub shape_file_handle: u64,
}

/// Template for viewport entities.
#[derive(Debug, Clone, Default)]
pub struct CadViewportTemplateData {
    pub viewport_header_handle: u64,
    pub frozen_layer_handles: Vec<u64>,
    pub boundary_handle: u64,
    pub named_ucs_handle: u64,
    pub base_ucs_handle: u64,
}

/// Template for spline entities.
#[derive(Debug, Clone, Default)]
pub struct CadSplineTemplateData {
    // No extra handles for spline, but keep for consistency.
}

/// Template for hatch entities.
#[derive(Debug, Clone, Default)]
pub struct CadHatchTemplateData {
    pub boundary_handles: Vec<Vec<u64>>,
}

/// Template for solid3d entities.
#[derive(Debug, Clone, Default)]
pub struct CadSolid3DTemplateData {
    pub history_handle: u64,
}

/// Template for raster image / wipeout entities.
#[derive(Debug, Clone, Default)]
pub struct CadImageTemplateData {
    pub img_def_handle: u64,
    pub img_def_reactor_handle: u64,
}

/// Template for polyface mesh entities.
#[derive(Debug, Clone, Default)]
pub struct CadPolyfaceMeshTemplateData {
    pub first_vertice_handle: u64,
    pub last_vertice_handle: u64,
    pub vertices_handles: Vec<u64>,
    pub seqend_handle: u64,
}

/// Template for document table (control) objects.
#[derive(Debug, Clone, Default)]
pub struct CadTableTemplateData {
    /// Handles of entries owned by this table (soft owner).
    pub entry_handles: Vec<u64>,
}

/// Template for BLOCK_HEADER table entry.
#[derive(Debug, Clone, Default)]
pub struct CadBlockRecordTemplateData {
    pub first_entity_handle: u64,
    pub last_entity_handle: u64,
    pub owned_object_handles: Vec<u64>,
    pub insert_count: HashMap<u64, i32>,
    pub layout_handle: u64,
    pub block_entity_handle: u64,
    pub end_block_handle: u64,
}

/// Template for LAYER table entry.
#[derive(Debug, Clone, Default)]
pub struct CadLayerTemplateData {
    pub linetype_handle: u64,
    pub plotstyle_handle: u64,
    pub material_handle: u64,
}

/// Template for LTYPE table entries.
#[derive(Debug, Clone, Default)]
pub struct CadLineTypeTemplateData {
    pub ltype_control_handle: u64,
    /// The total pattern length (IEEE-754 bit pattern).
    pub total_len: u64,
    pub segment_handles: Vec<u64>,
}

/// Template data for a single linetype segment.
#[derive(Debug, Clone, Default)]
pub struct CadLineTypeSegmentTemplateData {
    pub style_handle: u64,
}

/// Template for DIMSTYLE table entry.
#[derive(Debug, Clone, Default)]
pub struct CadDimStyleTemplateData {
    pub dimtxsty_handle: u64,
    pub dimldrblk_handle: u64,
    pub dimblk_handle: u64,
    pub dimblk1_handle: u64,
    pub dimblk2_handle: u64,
    pub dimltype_handle: u64,
    pub dimltex1_handle: u64,
    pub dimltex2_handle: u64,
    pub dimblk_name: String,
    pub dimblk1_name: String,
    pub dimblk2_name: String,
}

/// Template for VIEW table entry.
#[derive(Debug, Clone, Default)]
pub struct CadViewTemplateData {
    pub ucs_handle: u64,
    pub named_ucs_handle: u64,
}

/// Template for VPORT table entry.
#[derive(Debug, Clone, Default)]
pub struct CadVPortTemplateData {
    pub vport_control_handle: u64,
    pub background_handle: u64,
    pub style_handle: u64,
    pub sun_handle: u64,
    pub named_ucs_handle: u64,
    pub base_ucs_handle: u64,
}

/// Template for DICTIONARY objects.
#[derive(Debug, Clone, Default)]
pub struct CadDictionaryTemplateData {
    /// Entry name → handle pairs (soft owner).
    pub entries: Vec<(String, u64)>,
}

/// Template for DICTIONARY_WITH_DEFAULT objects.
#[derive(Debug, Clone, Default)]
pub struct CadDictWithDefaultTemplateData {
    /// Base dictionary entries.
    pub dict_data: CadDictionaryTemplateData,
    /// Default entry handle (hard pointer).
    pub default_entry_handle: u64,
}

/// Template for LAYOUT objects.
#[derive(Debug, Clone, Default)]
pub struct CadLayoutTemplateData {
    pub plot_view_handle: u64,
    pub visual_style_handle: u64,
    pub associated_tab_handle: u64,
    pub viewport_handle: u64,
    pub base_ucs_handle: u64,
    pub named_ucs_handle: u64,
    pub block_record_handle: u64,
}

/// Template for GROUP objects.
#[derive(Debug, Clone, Default)]
pub struct CadGroupTemplateData {
    pub entity_handles: Vec<u64>,
}

/// Template for MLINESTYLE objects.
#[derive(Debug, Clone, Default)]
pub struct CadMLineStyleTemplateData {
    pub element_linetype_handles: Vec<u64>,
}

/// Template for XRECORD objects.
#[derive(Debug, Clone, Default)]
pub struct CadXRecordTemplateData {
    // No extra handles; xrecord data is self-contained.
}

/// Template for IMAGEDEF objects.
#[derive(Debug, Clone, Default)]
pub struct CadImageDefTemplateData {
    // Reactor handles stored in common.reactor_handles.
}

/// Template for IMAGEDEF_REACTOR objects.
#[derive(Debug, Clone, Default)]
pub struct CadImageDefReactorTemplateData {
    pub image_handle: u64,
}

/// Template for SORTENTSTABLE objects.
#[derive(Debug, Clone, Default)]
pub struct CadSortEntsTableTemplateData {
    pub block_owner_handle: u64,
    pub sort_handle_pairs: Vec<(u64, u64)>,
}

/// Template for SCALE objects.
#[derive(Debug, Clone, Default)]
pub struct CadScaleTemplateData {
    // No extra handles.
}

/// Template for MLEADERSTYLE objects.
#[derive(Debug, Clone, Default)]
pub struct CadMLeaderStyleTemplateData {
    pub leader_line_type_handle: u64,
    pub arrowhead_handle: u64,
    pub mtext_style_handle: u64,
    pub block_content_handle: u64,
}

/// Template for PLOTSETTINGS objects.
#[derive(Debug, Clone, Default)]
pub struct CadPlotSettingsTemplateData {
    // Plot settings data is self-contained after reading.
}

/// Template data for TABLESTYLE objects.
#[derive(Debug, Clone, Default)]
pub struct CadTableStyleTemplateData {
    // No extra handles.
}

/// The template of one object: its common fields, the data of its kind,
/// and for entities the entity itself (of type `E`); `V` is the type of
/// extended-data values.
#[derive(Debug, Clone)]
pub enum CadTemplate<V, E> {
    // ---- Entities ----
    Entity {
        common: CadTemplateCommon<V>,
        entity_data: CadEntityTemplateData,
        entity: E,
    },
    TextEntity {
        common: CadTemplateCommon<V>,
        entity_data: CadEntityTemplateData,
        text_data: CadTextEntityTemplateData,
        entity: E,
    },
    Insert {
        common: CadTemplateCommon<V>,
        entity_data: CadEntityTemplateData,
        insert_data: CadInsertTemplateData,
        entity: E,
    },
    Polyline {
        common: CadTemplateCommon<V>,
        entity_data: CadEntityTemplateData,
        polyline_data: CadPolylineTemplateData,
        entity: E,
    },
    Dimension {
        common: CadTemplateCommon<V>,
        entity_data: CadEntityTemplateData,
        dim_data: CadDimensionTemplateData,
        entity: E,
    },
    Leader {
        common: CadTemplateCommon<V>,
        entity_data: CadEntityTemplateData,
        leader_data: CadLeaderTemplateData,
        entity: E,
    },
    MultiLeader {
        common: CadTemplateCommon<V>,
        entity_data: CadEntityTemplateData,
        mleader_data: CadMultiLeaderTemplateData,
        entity: E,
    },
    Shape {
        common: CadTemplateCommon<V>,
        entity_data: CadEntityTemplateData,
        shape_data: CadShapeTemplateData,
        entity: E,
    },
    Viewport {
        common: CadTemplateCommon<V>,
        entity_data: CadEntityTemplateData,
        viewport_data: CadViewportTemplateData,
        entity: E,
    },
    Hatch {
        common: CadTemplateCommon<V>,
        entity_data: CadEntityTemplateData,
        hatch_data: CadHatchTemplateData,
        entity: E,
    },
    Solid3D {
        common: CadTemplateCommon<V>,
        entity_data: CadEntityTemplateData,
        solid3d_data: CadSolid3DTemplateData,
        entity: E,
    },
    Image {
        common: CadTemplateCommon<V>,
        entity_data: CadEntityTemplateData,
        image_data: CadImageTemplateData,
        entity: E,
    },
    PolyfaceMesh {
        common: CadTemplateCommon<V>,
        entity_data: CadEntityTemplateData,
        polyface_data: CadPolyfaceMeshTemplateData,
        entity: E,
    },

    // ---- Table control objects ----
    TableControl {
        common: CadTemplateCommon<V>,
        table_data: CadTableTemplateData,
        table_type: TableControlType,
    },

    // ---- Table entries ----
    BlockHeader {
        common: CadTemplateCommon<V>,
        block_data: CadBlockRecordTemplateData,
    },
    LayerEntry {
        common: CadTemplateCommon<V>,
        layer_data: CadLayerTemplateData,
    },
    LineTypeEntry {
        common: CadTemplateCommon<V>,
        ltype_data: CadLineTypeTemplateData,
    },
    DimStyleEntry {
        common: CadTemplateCommon<V>,
        dimstyle_data: CadDimStyleTemplateData,
    },
    ViewEntry {
        common: CadTemplateCommon<V>,
        view_data: CadViewTemplateData,
    },
    VPortEntry {
        common: CadTemplateCommon<V>,
        vport_data: CadVPortTemplateData,
    },
    /// Generic table entry (AppId, TextStyle, UCS, etc.)
    GenericTableEntry {
        common: CadTemplateCommon<V>,
    },

    // ---- Non-graphical objects ----
    DictionaryObj {
        common: CadTemplateCommon<V>,
        dict_data: CadDictionaryTemplateData,
    },
    DictWithDefault {
        common: CadTemplateCommon<V>,
        dict_default_data: CadDictWithDefaultTemplateData,
    },
    LayoutObj {
        common: CadTemplateCommon<V>,
        layout_data: CadLayoutTemplateData,
    },
    GroupObj {
        common: CadTemplateCommon<V>,
        group_data: CadGroupTemplateData,
    },
    MLineStyleObj {
        common: CadTemplateCommon<V>,
        mls_data: CadMLineStyleTemplateData,
    },
    ImageDefObj {
        common: CadTemplateCommon<V>,
        imgdef_data: CadImageDefTemplateData,
    },
    ImageDefReactorObj {
        common: CadTemplateCommon<V>,
        reactor_data: CadImageDefReactorTemplateData,
    },
    SortEntsTableObj {
        common: CadTemplateCommon<V>,
        sort_data: CadSortEntsTableTemplateData,
    },
    MLeaderStyleObj {
        common: CadTemplateCommon<V>,
        mls_style_data: CadMLeaderStyleTemplateData,
    },
    PlotSettingsObj {
        common: CadTemplateCommon<V>,
    },
    ScaleObj {
        common: CadTemplateCommon<V>,
    },
    XRecordObj {
        common: CadTemplateCommon<V>,
    },
    /// Dictionary variable, plain object template, etc.
    GenericObject {
        common: CadTemplateCommon<V>,
    },
}

/// The common fields of a template, whatever its kind.
pub open spec fn template_common<V, E>(t: CadTemplate<V, E>) -> CadTemplateCommon<V> {
    match t {
        CadTemplate::Entity { common, .. } => common,
        CadTemplate::TextEntity { common, .. } => common,
        CadTemplate::Insert { common, .. } => common,
        CadTemplate::Polyline { common, .. } => common,
        CadTemplate::Dimension { common, .. } => common,
        CadTemplate::Leader { common, .. } => common,
        CadTemplate::MultiLeader { common, .. } => common,
        CadTemplate::Shape { common, .. } => common,
        CadTemplate::Viewport { common, .. } => common,
        CadTemplate::Hatch { common, .. } => common,
        CadTemplate::Solid3D { common, .. } => common,
        CadTemplate::Image { common, .. } => common,
        CadTemplate::PolyfaceMesh { common, .. } => common,
        CadTemplate::TableControl { common, .. } => common,
        CadTemplate::BlockHeader { common, .. } => common,
        CadTemplate::LayerEntry { common, .. } => common,
        CadTemplate::LineTypeEntry { common, .. } => common,
        CadTemplate::DimStyleEntry { common, .. } => common,
        CadTemplate::ViewEntry { common, .. } => common,
        CadTemplate::VPortEntry { common, .. } => common,
        CadTemplate::GenericTableEntry { common, .. } => common,
        CadTemplate::DictionaryObj { common, .. } => common,
        CadTemplate::DictWithDefault { common, .. } => common,
        CadTemplate::LayoutObj { common, .. } => common,
        CadTemplate::GroupObj { common, .. } => common,
        CadTemplate::MLineStyleObj { common, .. } => common,
        CadTemplate::ImageDefObj { common, .. } => common,
        CadTemplate::ImageDefReactorObj { common, .. } => common,
        CadTemplate::SortEntsTableObj { common, .. } => common,
        CadTemplate::MLeaderStyleObj { common, .. } => common,
        CadTemplate::PlotSettingsObj { common, .. } => common,
        CadTemplate::ScaleObj { common, .. } => common,
        CadTemplate::XRecordObj { common, .. } => common,
        CadTemplate::GenericObject { common, .. } => common,
    }
}

impl<V, E> CadTemplate<V, E> {
    /// The common fields of this template.
    pub fn common(&self) -> (r: &CadTemplateCommon<V>)
        ensures
            *r == template_common(*self),
    {
        match self {
            CadTemplate::Entity { common, .. }
            | CadTemplate::TextEntity { common, .. }
            | CadTemplate::Insert { common, .. }
            | CadTemplate::Polyline { common, .. }
            | CadTemplate::Dimension { common, .. }
            | CadTemplate::Leader { common, .. }
            | CadTemplate::MultiLeader { common, .. }
            | CadTemplate::Shape { common, .. }
            | CadTemplate::Viewport { common, .. }
            | CadTemplate::Hatch { common, .. }
            | CadTemplate::Solid3D { common, .. }
            | CadTemplate::Image { common, .. }
            | CadTemplate::PolyfaceMesh { common, .. }
            | CadTemplate::TableControl { common, .. }
            | CadTemplate::BlockHeader { common, .. }
            | CadTemplate::LayerEntry { common, .. }
            | CadTemplate::LineTypeEntry { common, .. }
            | CadTemplate::DimStyleEntry { common, .. }
            | CadTemplate::ViewEntry { common, .. }
            | CadTemplate::VPortEntry { common, .. }
            | CadTemplate::GenericTableEntry { common, .. }
            | CadTemplate::DictionaryObj { common, .. }
            | CadTemplate::DictWithDefault { common, .. }
            | CadTemplate::LayoutObj { common, .. }
            | CadTemplate::GroupObj { common, .. }
            | CadTemplate::MLineStyleObj { common, .. }
            | CadTemplate::ImageDefObj { common, .. }
            | CadTemplate::ImageDefReactorObj { common, .. }
            | CadTemplate::SortEntsTableObj { common, .. }
            | CadTemplate::MLeaderStyleObj { common, .. }
            | CadTemplate::PlotSettingsObj { common, .. }
            | CadTemplate::ScaleObj { common, .. }
            | CadTemplate::XRecordObj { common, .. }
            | CadTemplate::GenericObject { common, .. } => common,
        }
    }

    /// The handle of the object.
    pub fn handle(&self) -> (r: u64)
        ensures
            r == template_common(*self).handle,
    {
        self.common().handle
    }
}

/// The kind of a table control object.
#[derive(Debug, Clone, Copy, PartialEq, Eq)]
pub enum TableControlType {
    BlockControl,
    LayerControl,
    TextStyleControl,
    LineTypeControl,
    ViewControl,
    UcsControl,
    VPortControl,
    AppIdControl,
    DimStyleControl,
    ViewportEntityHeaderControl,
}

/// The kind of a modeler geometry entity.
#[derive(Debug, Clone, Copy, PartialEq, Eq)]
pub enum ModelerGeoType {
    Region,
    Body,
    Solid3D,
}

} // verus!
