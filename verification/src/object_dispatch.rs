//! Dispatch of one object to the reader of its type, and the loop that
//! reads every object reachable from the starting handles.

use vstd::prelude::*;
use vstd::string::StrSliceExecFns;
use crate::error::DxfError;
use crate::notification::NotificationType;
use crate::object_common::XDataValue;
use crate::object_reader::{DwgObjectReader, UnknownEntity, read_unknown_entity_outcome,
    read_unknown_non_graphical_object_outcome, read_placeholder_outcome, read_table_control_outcome,
    read_block_control_outcome, read_ltype_control_outcome, read_dictionary_outcome, read_group_outcome,
    read_proxy_entity_outcome, read_proxy_object_outcome, read_dictionary_var_outcome, read_dictionary_with_default_outcome};
use crate::stream_set::StreamSet;
use crate::templates::{CadTemplate, TableControlType, CadEntityTemplateData, template_common};
use crate::object_reader::{spec_entity_type, streams_of, streams_match};
use crate::modeler_geometry::ModelerGeoType;
use crate::frame_entities::{Ole2FrameEntity, MultiLeaderEntity, read_ole2frame_outcome, read_multileader_outcome};

use crate::annotation_entities::{LeaderEntity, MTextEntity, ToleranceEntity, read_leader_outcome, read_mtext_outcome, read_tolerance_outcome};
use crate::dimension_entities::{DimensionEntity, read_dim_aligned_outcome, read_dim_angular_2ln_outcome, read_dim_angular_3pt_outcome, read_dim_diameter_outcome, read_dim_linear_outcome, read_dim_ordinate_outcome, read_dim_radius_outcome};
use crate::geometry_entities::{ArcEntity, BlockEntity, CircleEntity, EllipseEntity, Face3DEntity, LineEntity, MarkerEntity, PointEntity, RayEntity, ShapeEntity, SolidEntity, read_3d_face_outcome, read_arc_outcome, read_block_outcome, read_circle_outcome, read_ellipse_outcome, read_end_block_outcome, read_line_outcome, read_pface_vertex_outcome, read_point_outcome, read_ray_outcome, read_seqend_outcome, read_shape_outcome, read_solid_outcome, read_vertex_2d_outcome, read_vertex_3d_outcome, read_xline_outcome};
use crate::hatch_entity::{HatchEntity, read_hatch_outcome};
use crate::insert_entities::{InsertEntity, read_insert_outcome, read_minsert_outcome};
use crate::modeler_geometry::{ModelerEntity, read_modeler_geometry_outcome, read_solid_3d_outcome};
use crate::object_records::{read_block_header_outcome, read_layout_outcome, read_mline_style_outcome, read_viewport_entity_header_outcome, read_xrecord_outcome, read_acdb_placeholder_outcome, read_db_color_outcome, read_image_definition_outcome, read_image_definition_reactor_outcome, read_material_outcome, read_mleader_style_outcome, read_pdf_definition_outcome, read_plot_settings_outcome, read_raster_variables_outcome, read_scale_outcome, read_sort_entities_table_outcome, read_table_style_outcome, read_visual_style_outcome, read_wipeout_variables_outcome};
use crate::polyline_entities::{LwPolylineEntity, PolygonMeshEntity, Polyline2DEntity, PolylineHeaderEntity, read_lwpolyline_outcome, read_polyface_mesh_outcome, read_polygon_mesh_outcome, read_polyline_2d_outcome, read_polyline_3d_outcome};
use crate::table_entries::{read_appid_outcome, read_dimstyle_outcome, read_layer_outcome, read_ltype_outcome, read_text_style_outcome, read_ucs_outcome, read_view_outcome, read_vport_outcome};
use crate::text_entities::{AttributeDefinition, AttributeEntity, TextEntity, read_attribute_outcome, read_attribute_definition_outcome, read_text_outcome};

verus! {

/// The type of an object, by the code it is stored with.
#[derive(Clone, Copy, Debug, PartialEq, Eq, Structural)]
pub enum ObjectType {
    /// A negative code.
    Invalid,
    /// A code that no type has.
    Undefined,
    Text,
    Attrib,
    Attdef,
    Block,
    Endblk,
    Seqend,
    Insert,
    Minsert,
    Unknown9,
    Vertex2D,
    Vertex3D,
    VertexMesh,
    VertexPface,
    VertexPfaceFace,
    Polyline2D,
    Polyline3D,
    Arc,
    Circle,
    Line,
    DimensionOrdinate,
    DimensionLinear,
    DimensionAligned,
    DimensionAng3Pt,
    DimensionAng2Ln,
    DimensionRadius,
    DimensionDiameter,
    Point,
    Face3D,
    PolylinePface,
    PolylineMesh,
    Solid,
    Trace,
    Shape,
    Viewport,
    Ellipse,
    Spline,
    Region,
    Solid3D,
    Body,
    Ray,
    Xline,
    Dictionary,
    OleFrame,
    Mtext,
    Leader,
    Tolerance,
    Mline,
    BlockControlObj,
    BlockHeader,
    LayerControlObj,
    Layer,
    StyleControlObj,
    Style,
    Unknown36,
    Unknown37,
    LtypeControlObj,
    Ltype,
    Unknown3A,
    Unknown3B,
    ViewControlObj,
    View,
    UcsControlObj,
    Ucs,
    VportControlObj,
    Vport,
    AppidControlObj,
    Appid,
    DimstyleControlObj,
    Dimstyle,
    VpEntHdrCtrlObj,
    VpEntHdr,
    Group,
    MlineStyle,
    Ole2Frame,
    Dummy,
    LongTransaction,
    LwPolyline,
    Hatch,
    XRecord,
    AcDbPlaceholder,
    VbaProject,
    Layout,
    AcadProxyEntity,
    AcadProxyObject,
    /// A code from 500 on: the type of a class of the drawing.
    Unlisted,
}

/// The type stored with the code `code`.
pub open spec fn spec_object_type(code: int) -> ObjectType {
    if code < 0 { ObjectType::Invalid }
    else if code == 1 { ObjectType::Text }
    else if code == 2 { ObjectType::Attrib }
    else if code == 3 { ObjectType::Attdef }
    else if code == 4 { ObjectType::Block }
    else if code == 5 { ObjectType::Endblk }
    else if code == 6 { ObjectType::Seqend }
    else if code == 7 { ObjectType::Insert }
    else if code == 8 { ObjectType::Minsert }
    else if code == 9 { ObjectType::Unknown9 }
    else if code == 10 { ObjectType::Vertex2D }
    else if code == 11 { ObjectType::Vertex3D }
    else if code == 12 { ObjectType::VertexMesh }
    else if code == 13 { ObjectType::VertexPface }
    else if code == 14 { ObjectType::VertexPfaceFace }
    else if code == 15 { ObjectType::Polyline2D }
    else if code == 16 { ObjectType::Polyline3D }
    else if code == 17 { ObjectType::Arc }
    else if code == 18 { ObjectType::Circle }
    else if code == 19 { ObjectType::Line }
    else if code == 20 { ObjectType::DimensionOrdinate }
    else if code == 21 { ObjectType::DimensionLinear }
    else if code == 22 { ObjectType::DimensionAligned }
    else if code == 23 { ObjectType::DimensionAng3Pt }
    else if code == 24 { ObjectType::DimensionAng2Ln }
    else if code == 25 { ObjectType::DimensionRadius }
    else if code == 26 { ObjectType::DimensionDiameter }
    else if code == 27 { ObjectType::Point }
    else if code == 28 { ObjectType::Face3D }
    else if code == 29 { ObjectType::PolylinePface }
    else if code == 30 { ObjectType::PolylineMesh }
    else if code == 31 { ObjectType::Solid }
    else if code == 32 { ObjectType::Trace }
    else if code == 33 { ObjectType::Shape }
    else if code == 34 { ObjectType::Viewport }
    else if code == 35 { ObjectType::Ellipse }
    else if code == 36 { ObjectType::Spline }
    else if code == 37 { ObjectType::Region }
    else if code == 38 { ObjectType::Solid3D }
    else if code == 39 { ObjectType::Body }
    else if code == 40 { ObjectType::Ray }
    else if code == 41 { ObjectType::Xline }
    else if code == 42 { ObjectType::Dictionary }
    else if code == 43 { ObjectType::OleFrame }
    else if code == 44 { ObjectType::Mtext }
    else if code == 45 { ObjectType::Leader }
    else if code == 46 { ObjectType::Tolerance }
    else if code == 47 { ObjectType::Mline }
    else if code == 48 { ObjectType::BlockControlObj }
    else if code == 49 { ObjectType::BlockHeader }
    else if code == 50 { ObjectType::LayerControlObj }
    else if code == 51 { ObjectType::Layer }
    else if code == 52 { ObjectType::StyleControlObj }
    else if code == 53 { ObjectType::Style }
    else if code == 54 { ObjectType::Unknown36 }
    else if code == 55 { ObjectType::Unknown37 }
    else if code == 56 { ObjectType::LtypeControlObj }
    else if code == 57 { ObjectType::Ltype }
    else if code == 58 { ObjectType::Unknown3A }
    else if code == 59 { ObjectType::Unknown3B }
    else if code == 60 { ObjectType::ViewControlObj }
    else if code == 61 { ObjectType::View }
    else if code == 62 { ObjectType::UcsControlObj }
    else if code == 63 { ObjectType::Ucs }
    else if code == 64 { ObjectType::VportControlObj }
    else if code == 65 { ObjectType::Vport }
    else if code == 66 { ObjectType::AppidControlObj }
    else if code == 67 { ObjectType::Appid }
    else if code == 68 { ObjectType::DimstyleControlObj }
    else if code == 69 { ObjectType::Dimstyle }
    else if code == 70 { ObjectType::VpEntHdrCtrlObj }
    else if code == 71 { ObjectType::VpEntHdr }
    else if code == 72 { ObjectType::Group }
    else if code == 73 { ObjectType::MlineStyle }
    else if code == 74 { ObjectType::Ole2Frame }
    else if code == 75 { ObjectType::Dummy }
    else if code == 76 { ObjectType::LongTransaction }
    else if code == 77 { ObjectType::LwPolyline }
    else if code == 78 { ObjectType::Hatch }
    else if code == 79 { ObjectType::XRecord }
    else if code == 80 { ObjectType::AcDbPlaceholder }
    else if code == 81 { ObjectType::VbaProject }
    else if code == 82 { ObjectType::Layout }
    else if code == 498 { ObjectType::AcadProxyEntity }
    else if code == 499 { ObjectType::AcadProxyObject }
    else if code >= 500 { ObjectType::Unlisted }
    else { ObjectType::Undefined }
}

/// The type stored with the code `code` (see [`spec_object_type`]).
pub fn object_type_of(code: i16) -> (r: ObjectType)
    ensures
        r == spec_object_type(code as int),
{
    if code < 0 { ObjectType::Invalid }
    else if code == 1 { ObjectType::Text }
    else if code == 2 { ObjectType::Attrib }
    else if code == 3 { ObjectType::Attdef }
    else if code == 4 { ObjectType::Block }
    else if code == 5 { ObjectType::Endblk }
    else if code == 6 { ObjectType::Seqend }
    else if code == 7 { ObjectType::Insert }
    else if code == 8 { ObjectType::Minsert }
    else if code == 9 { ObjectType::Unknown9 }
    else if code == 10 { ObjectType::Vertex2D }
    else if code == 11 { ObjectType::Vertex3D }
    else if code == 12 { ObjectType::VertexMesh }
    else if code == 13 { ObjectType::VertexPface }
    else if code == 14 { ObjectType::VertexPfaceFace }
    else if code == 15 { ObjectType::Polyline2D }
    else if code == 16 { ObjectType::Polyline3D }
    else if code == 17 { ObjectType::Arc }
    else if code == 18 { ObjectType::Circle }
    else if code == 19 { ObjectType::Line }
    else if code == 20 { ObjectType::DimensionOrdinate }
    else if code == 21 { ObjectType::DimensionLinear }
    else if code == 22 { ObjectType::DimensionAligned }
    else if code == 23 { ObjectType::DimensionAng3Pt }
    else if code == 24 { ObjectType::DimensionAng2Ln }
    else if code == 25 { ObjectType::DimensionRadius }
    else if code == 26 { ObjectType::DimensionDiameter }
    else if code == 27 { ObjectType::Point }
    else if code == 28 { ObjectType::Face3D }
    else if code == 29 { ObjectType::PolylinePface }
    else if code == 30 { ObjectType::PolylineMesh }
    else if code == 31 { ObjectType::Solid }
    else if code == 32 { ObjectType::Trace }
    else if code == 33 { ObjectType::Shape }
    else if code == 34 { ObjectType::Viewport }
    else if code == 35 { ObjectType::Ellipse }
    else if code == 36 { ObjectType::Spline }
    else if code == 37 { ObjectType::Region }
    else if code == 38 { ObjectType::Solid3D }
    else if code == 39 { ObjectType::Body }
    else if code == 40 { ObjectType::Ray }
    else if code == 41 { ObjectType::Xline }
    else if code == 42 { ObjectType::Dictionary }
    else if code == 43 { ObjectType::OleFrame }
    else if code == 44 { ObjectType::Mtext }
    else if code == 45 { ObjectType::Leader }
    else if code == 46 { ObjectType::Tolerance }
    else if code == 47 { ObjectType::Mline }
    else if code == 48 { ObjectType::BlockControlObj }
    else if code == 49 { ObjectType::BlockHeader }
    else if code == 50 { ObjectType::LayerControlObj }
    else if code == 51 { ObjectType::Layer }
    else if code == 52 { ObjectType::StyleControlObj }
    else if code == 53 { ObjectType::Style }
    else if code == 54 { ObjectType::Unknown36 }
    else if code == 55 { ObjectType::Unknown37 }
    else if code == 56 { ObjectType::LtypeControlObj }
    else if code == 57 { ObjectType::Ltype }
    else if code == 58 { ObjectType::Unknown3A }
    else if code == 59 { ObjectType::Unknown3B }
    else if code == 60 { ObjectType::ViewControlObj }
    else if code == 61 { ObjectType::View }
    else if code == 62 { ObjectType::UcsControlObj }
    else if code == 63 { ObjectType::Ucs }
    else if code == 64 { ObjectType::VportControlObj }
    else if code == 65 { ObjectType::Vport }
    else if code == 66 { ObjectType::AppidControlObj }
    else if code == 67 { ObjectType::Appid }
    else if code == 68 { ObjectType::DimstyleControlObj }
    else if code == 69 { ObjectType::Dimstyle }
    else if code == 70 { ObjectType::VpEntHdrCtrlObj }
    else if code == 71 { ObjectType::VpEntHdr }
    else if code == 72 { ObjectType::Group }
    else if code == 73 { ObjectType::MlineStyle }
    else if code == 74 { ObjectType::Ole2Frame }
    else if code == 75 { ObjectType::Dummy }
    else if code == 76 { ObjectType::LongTransaction }
    else if code == 77 { ObjectType::LwPolyline }
    else if code == 78 { ObjectType::Hatch }
    else if code == 79 { ObjectType::XRecord }
    else if code == 80 { ObjectType::AcDbPlaceholder }
    else if code == 81 { ObjectType::VbaProject }
    else if code == 82 { ObjectType::Layout }
    else if code == 498 { ObjectType::AcadProxyEntity }
    else if code == 499 { ObjectType::AcadProxyObject }
    else if code >= 500 { ObjectType::Unlisted }
    else { ObjectType::Undefined }
}

/// An entity of any of the kinds that the readers give.
pub enum AnyEntity {
    MultiLeader(MultiLeaderEntity),
    Ole2Frame(Ole2FrameEntity),
    Arc(ArcEntity),
    AttributeDefinition(AttributeDefinition),
    Attribute(AttributeEntity),
    Block(BlockEntity),
    Circle(CircleEntity),
    Dimension(DimensionEntity),
    Ellipse(EllipseEntity),
    Face3D(Face3DEntity),
    Hatch(HatchEntity),
    Insert(InsertEntity),
    Leader(LeaderEntity),
    Line(LineEntity),
    LwPolyline(LwPolylineEntity),
    MText(MTextEntity),
    Marker(MarkerEntity),
    Modeler(ModelerEntity),
    Point(PointEntity),
    PolygonMesh(PolygonMeshEntity),
    Polyline2D(Polyline2DEntity),
    PolylineHeader(PolylineHeaderEntity),
    Ray(RayEntity),
    Shape(ShapeEntity),
    Solid(SolidEntity),
    Text(TextEntity),
    Tolerance(ToleranceEntity),
    Unknown(UnknownEntity),
}

/// An entity kind that can be held as an [`AnyEntity`].
pub trait AsAnyEntity: Sized {
    /// `self` as an [`AnyEntity`].
    spec fn as_any(&self) -> AnyEntity;

    /// `self` as an [`AnyEntity`].
    fn into_any(self) -> (r: AnyEntity)
        ensures
            r == self.as_any();
}

impl AsAnyEntity for MultiLeaderEntity {
    open spec fn as_any(&self) -> AnyEntity {
        AnyEntity::MultiLeader(*self)
    }

    fn into_any(self) -> (r: AnyEntity) {
        AnyEntity::MultiLeader(self)
    }
}

impl AsAnyEntity for Ole2FrameEntity {
    open spec fn as_any(&self) -> AnyEntity {
        AnyEntity::Ole2Frame(*self)
    }

    fn into_any(self) -> (r: AnyEntity) {
        AnyEntity::Ole2Frame(self)
    }
}

impl AsAnyEntity for AnyEntity {
    open spec fn as_any(&self) -> AnyEntity {
        *self
    }

    fn into_any(self) -> (r: AnyEntity) {
        self
    }
}

impl AsAnyEntity for ArcEntity {
    open spec fn as_any(&self) -> AnyEntity {
        AnyEntity::Arc(*self)
    }

    fn into_any(self) -> (r: AnyEntity) {
        AnyEntity::Arc(self)
    }
}

impl AsAnyEntity for AttributeDefinition {
    open spec fn as_any(&self) -> AnyEntity {
        AnyEntity::AttributeDefinition(*self)
    }

    fn into_any(self) -> (r: AnyEntity) {
        AnyEntity::AttributeDefinition(self)
    }
}

impl AsAnyEntity for AttributeEntity {
    open spec fn as_any(&self) -> AnyEntity {
        AnyEntity::Attribute(*self)
    }

    fn into_any(self) -> (r: AnyEntity) {
        AnyEntity::Attribute(self)
    }
}

impl AsAnyEntity for BlockEntity {
    open spec fn as_any(&self) -> AnyEntity {
        AnyEntity::Block(*self)
    }

    fn into_any(self) -> (r: AnyEntity) {
        AnyEntity::Block(self)
    }
}

impl AsAnyEntity for CircleEntity {
    open spec fn as_any(&self) -> AnyEntity {
        AnyEntity::Circle(*self)
    }

    fn into_any(self) -> (r: AnyEntity) {
        AnyEntity::Circle(self)
    }
}

impl AsAnyEntity for DimensionEntity {
    open spec fn as_any(&self) -> AnyEntity {
        AnyEntity::Dimension(*self)
    }

    fn into_any(self) -> (r: AnyEntity) {
        AnyEntity::Dimension(self)
    }
}

impl AsAnyEntity for EllipseEntity {
    open spec fn as_any(&self) -> AnyEntity {
        AnyEntity::Ellipse(*self)
    }

    fn into_any(self) -> (r: AnyEntity) {
        AnyEntity::Ellipse(self)
    }
}

impl AsAnyEntity for Face3DEntity {
    open spec fn as_any(&self) -> AnyEntity {
        AnyEntity::Face3D(*self)
    }

    fn into_any(self) -> (r: AnyEntity) {
        AnyEntity::Face3D(self)
    }
}

impl AsAnyEntity for HatchEntity {
    open spec fn as_any(&self) -> AnyEntity {
        AnyEntity::Hatch(*self)
    }

    fn into_any(self) -> (r: AnyEntity) {
        AnyEntity::Hatch(self)
    }
}

impl AsAnyEntity for InsertEntity {
    open spec fn as_any(&self) -> AnyEntity {
        AnyEntity::Insert(*self)
    }

    fn into_any(self) -> (r: AnyEntity) {
        AnyEntity::Insert(self)
    }
}

impl AsAnyEntity for LeaderEntity {
    open spec fn as_any(&self) -> AnyEntity {
        AnyEntity::Leader(*self)
    }

    fn into_any(self) -> (r: AnyEntity) {
        AnyEntity::Leader(self)
    }
}

impl AsAnyEntity for LineEntity {
    open spec fn as_any(&self) -> AnyEntity {
        AnyEntity::Line(*self)
    }

    fn into_any(self) -> (r: AnyEntity) {
        AnyEntity::Line(self)
    }
}

impl AsAnyEntity for LwPolylineEntity {
    open spec fn as_any(&self) -> AnyEntity {
        AnyEntity::LwPolyline(*self)
    }

    fn into_any(self) -> (r: AnyEntity) {
        AnyEntity::LwPolyline(self)
    }
}

impl AsAnyEntity for MTextEntity {
    open spec fn as_any(&self) -> AnyEntity {
        AnyEntity::MText(*self)
    }

    fn into_any(self) -> (r: AnyEntity) {
        AnyEntity::MText(self)
    }
}

impl AsAnyEntity for MarkerEntity {
    open spec fn as_any(&self) -> AnyEntity {
        AnyEntity::Marker(*self)
    }

    fn into_any(self) -> (r: AnyEntity) {
        AnyEntity::Marker(self)
    }
}

impl AsAnyEntity for ModelerEntity {
    open spec fn as_any(&self) -> AnyEntity {
        AnyEntity::Modeler(*self)
    }

    fn into_any(self) -> (r: AnyEntity) {
        AnyEntity::Modeler(self)
    }
}

impl AsAnyEntity for PointEntity {
    open spec fn as_any(&self) -> AnyEntity {
        AnyEntity::Point(*self)
    }

    fn into_any(self) -> (r: AnyEntity) {
        AnyEntity::Point(self)
    }
}

impl AsAnyEntity for PolygonMeshEntity {
    open spec fn as_any(&self) -> AnyEntity {
        AnyEntity::PolygonMesh(*self)
    }

    fn into_any(self) -> (r: AnyEntity) {
        AnyEntity::PolygonMesh(self)
    }
}

impl AsAnyEntity for Polyline2DEntity {
    open spec fn as_any(&self) -> AnyEntity {
        AnyEntity::Polyline2D(*self)
    }

    fn into_any(self) -> (r: AnyEntity) {
        AnyEntity::Polyline2D(self)
    }
}

impl AsAnyEntity for PolylineHeaderEntity {
    open spec fn as_any(&self) -> AnyEntity {
        AnyEntity::PolylineHeader(*self)
    }

    fn into_any(self) -> (r: AnyEntity) {
        AnyEntity::PolylineHeader(self)
    }
}

impl AsAnyEntity for RayEntity {
    open spec fn as_any(&self) -> AnyEntity {
        AnyEntity::Ray(*self)
    }

    fn into_any(self) -> (r: AnyEntity) {
        AnyEntity::Ray(self)
    }
}

impl AsAnyEntity for ShapeEntity {
    open spec fn as_any(&self) -> AnyEntity {
        AnyEntity::Shape(*self)
    }

    fn into_any(self) -> (r: AnyEntity) {
        AnyEntity::Shape(self)
    }
}

impl AsAnyEntity for SolidEntity {
    open spec fn as_any(&self) -> AnyEntity {
        AnyEntity::Solid(*self)
    }

    fn into_any(self) -> (r: AnyEntity) {
        AnyEntity::Solid(self)
    }
}

impl AsAnyEntity for TextEntity {
    open spec fn as_any(&self) -> AnyEntity {
        AnyEntity::Text(*self)
    }

    fn into_any(self) -> (r: AnyEntity) {
        AnyEntity::Text(self)
    }
}

impl AsAnyEntity for ToleranceEntity {
    open spec fn as_any(&self) -> AnyEntity {
        AnyEntity::Tolerance(*self)
    }

    fn into_any(self) -> (r: AnyEntity) {
        AnyEntity::Tolerance(self)
    }
}

impl AsAnyEntity for UnknownEntity {
    open spec fn as_any(&self) -> AnyEntity {
        AnyEntity::Unknown(*self)
    }

    fn into_any(self) -> (r: AnyEntity) {
        AnyEntity::Unknown(self)
    }
}

/// The template `t` with its entity held as an [`AnyEntity`].
pub open spec fn any_template<V, E: AsAnyEntity>(t: CadTemplate<V, E>) -> CadTemplate<V, AnyEntity> {
    match t {
        CadTemplate::Entity { common, entity_data, entity } => CadTemplate::Entity { common, entity_data, entity: entity.as_any() },
        CadTemplate::TextEntity { common, entity_data, text_data, entity } => CadTemplate::TextEntity { common, entity_data, text_data, entity: entity.as_any() },
        CadTemplate::Insert { common, entity_data, insert_data, entity } => CadTemplate::Insert { common, entity_data, insert_data, entity: entity.as_any() },
        CadTemplate::Polyline { common, entity_data, polyline_data, entity } => CadTemplate::Polyline { common, entity_data, polyline_data, entity: entity.as_any() },
        CadTemplate::Dimension { common, entity_data, dim_data, entity } => CadTemplate::Dimension { common, entity_data, dim_data, entity: entity.as_any() },
        CadTemplate::Leader { common, entity_data, leader_data, entity } => CadTemplate::Leader { common, entity_data, leader_data, entity: entity.as_any() },
        CadTemplate::MultiLeader { common, entity_data, mleader_data, entity } => CadTemplate::MultiLeader { common, entity_data, mleader_data, entity: entity.as_any() },
        CadTemplate::Shape { common, entity_data, shape_data, entity } => CadTemplate::Shape { common, entity_data, shape_data, entity: entity.as_any() },
        CadTemplate::Viewport { common, entity_data, viewport_data, entity } => CadTemplate::Viewport { common, entity_data, viewport_data, entity: entity.as_any() },
        CadTemplate::Hatch { common, entity_data, hatch_data, entity } => CadTemplate::Hatch { common, entity_data, hatch_data, entity: entity.as_any() },
        CadTemplate::Solid3D { common, entity_data, solid3d_data, entity } => CadTemplate::Solid3D { common, entity_data, solid3d_data, entity: entity.as_any() },
        CadTemplate::Image { common, entity_data, image_data, entity } => CadTemplate::Image { common, entity_data, image_data, entity: entity.as_any() },
        CadTemplate::PolyfaceMesh { common, entity_data, polyface_data, entity } => CadTemplate::PolyfaceMesh { common, entity_data, polyface_data, entity: entity.as_any() },
        CadTemplate::TableControl { common, table_data, table_type } => CadTemplate::TableControl { common, table_data, table_type },
        CadTemplate::BlockHeader { common, block_data } => CadTemplate::BlockHeader { common, block_data },
        CadTemplate::LayerEntry { common, layer_data } => CadTemplate::LayerEntry { common, layer_data },
        CadTemplate::LineTypeEntry { common, ltype_data } => CadTemplate::LineTypeEntry { common, ltype_data },
        CadTemplate::DimStyleEntry { common, dimstyle_data } => CadTemplate::DimStyleEntry { common, dimstyle_data },
        CadTemplate::ViewEntry { common, view_data } => CadTemplate::ViewEntry { common, view_data },
        CadTemplate::VPortEntry { common, vport_data } => CadTemplate::VPortEntry { common, vport_data },
        CadTemplate::GenericTableEntry { common } => CadTemplate::GenericTableEntry { common },
        CadTemplate::DictionaryObj { common, dict_data } => CadTemplate::DictionaryObj { common, dict_data },
        CadTemplate::DictWithDefault { common, dict_default_data } => CadTemplate::DictWithDefault { common, dict_default_data },
        CadTemplate::LayoutObj { common, layout_data } => CadTemplate::LayoutObj { common, layout_data },
        CadTemplate::GroupObj { common, group_data } => CadTemplate::GroupObj { common, group_data },
        CadTemplate::MLineStyleObj { common, mls_data } => CadTemplate::MLineStyleObj { common, mls_data },
        CadTemplate::ImageDefObj { common, imgdef_data } => CadTemplate::ImageDefObj { common, imgdef_data },
        CadTemplate::ImageDefReactorObj { common, reactor_data } => CadTemplate::ImageDefReactorObj { common, reactor_data },
        CadTemplate::SortEntsTableObj { common, sort_data } => CadTemplate::SortEntsTableObj { common, sort_data },
        CadTemplate::MLeaderStyleObj { common, mls_style_data } => CadTemplate::MLeaderStyleObj { common, mls_style_data },
        CadTemplate::PlotSettingsObj { common } => CadTemplate::PlotSettingsObj { common },
        CadTemplate::ScaleObj { common } => CadTemplate::ScaleObj { common },
        CadTemplate::XRecordObj { common } => CadTemplate::XRecordObj { common },
        CadTemplate::GenericObject { common } => CadTemplate::GenericObject { common },
    }
}

/// The template `t` with its entity held as an [`AnyEntity`].
pub fn into_any_template<V, E: AsAnyEntity>(t: CadTemplate<V, E>) -> (r: CadTemplate<V, AnyEntity>)
    ensures
        r == any_template(t),
{
    match t {
        CadTemplate::Entity { common, entity_data, entity } => CadTemplate::Entity { common, entity_data, entity: entity.into_any() },
        CadTemplate::TextEntity { common, entity_data, text_data, entity } => CadTemplate::TextEntity { common, entity_data, text_data, entity: entity.into_any() },
        CadTemplate::Insert { common, entity_data, insert_data, entity } => CadTemplate::Insert { common, entity_data, insert_data, entity: entity.into_any() },
        CadTemplate::Polyline { common, entity_data, polyline_data, entity } => CadTemplate::Polyline { common, entity_data, polyline_data, entity: entity.into_any() },
        CadTemplate::Dimension { common, entity_data, dim_data, entity } => CadTemplate::Dimension { common, entity_data, dim_data, entity: entity.into_any() },
        CadTemplate::Leader { common, entity_data, leader_data, entity } => CadTemplate::Leader { common, entity_data, leader_data, entity: entity.into_any() },
        CadTemplate::MultiLeader { common, entity_data, mleader_data, entity } => CadTemplate::MultiLeader { common, entity_data, mleader_data, entity: entity.into_any() },
        CadTemplate::Shape { common, entity_data, shape_data, entity } => CadTemplate::Shape { common, entity_data, shape_data, entity: entity.into_any() },
        CadTemplate::Viewport { common, entity_data, viewport_data, entity } => CadTemplate::Viewport { common, entity_data, viewport_data, entity: entity.into_any() },
        CadTemplate::Hatch { common, entity_data, hatch_data, entity } => CadTemplate::Hatch { common, entity_data, hatch_data, entity: entity.into_any() },
        CadTemplate::Solid3D { common, entity_data, solid3d_data, entity } => CadTemplate::Solid3D { common, entity_data, solid3d_data, entity: entity.into_any() },
        CadTemplate::Image { common, entity_data, image_data, entity } => CadTemplate::Image { common, entity_data, image_data, entity: entity.into_any() },
        CadTemplate::PolyfaceMesh { common, entity_data, polyface_data, entity } => CadTemplate::PolyfaceMesh { common, entity_data, polyface_data, entity: entity.into_any() },
        CadTemplate::TableControl { common, table_data, table_type } => CadTemplate::TableControl { common, table_data, table_type },
        CadTemplate::BlockHeader { common, block_data } => CadTemplate::BlockHeader { common, block_data },
        CadTemplate::LayerEntry { common, layer_data } => CadTemplate::LayerEntry { common, layer_data },
        CadTemplate::LineTypeEntry { common, ltype_data } => CadTemplate::LineTypeEntry { common, ltype_data },
        CadTemplate::DimStyleEntry { common, dimstyle_data } => CadTemplate::DimStyleEntry { common, dimstyle_data },
        CadTemplate::ViewEntry { common, view_data } => CadTemplate::ViewEntry { common, view_data },
        CadTemplate::VPortEntry { common, vport_data } => CadTemplate::VPortEntry { common, vport_data },
        CadTemplate::GenericTableEntry { common } => CadTemplate::GenericTableEntry { common },
        CadTemplate::DictionaryObj { common, dict_data } => CadTemplate::DictionaryObj { common, dict_data },
        CadTemplate::DictWithDefault { common, dict_default_data } => CadTemplate::DictWithDefault { common, dict_default_data },
        CadTemplate::LayoutObj { common, layout_data } => CadTemplate::LayoutObj { common, layout_data },
        CadTemplate::GroupObj { common, group_data } => CadTemplate::GroupObj { common, group_data },
        CadTemplate::MLineStyleObj { common, mls_data } => CadTemplate::MLineStyleObj { common, mls_data },
        CadTemplate::ImageDefObj { common, imgdef_data } => CadTemplate::ImageDefObj { common, imgdef_data },
        CadTemplate::ImageDefReactorObj { common, reactor_data } => CadTemplate::ImageDefReactorObj { common, reactor_data },
        CadTemplate::SortEntsTableObj { common, sort_data } => CadTemplate::SortEntsTableObj { common, sort_data },
        CadTemplate::MLeaderStyleObj { common, mls_style_data } => CadTemplate::MLeaderStyleObj { common, mls_style_data },
        CadTemplate::PlotSettingsObj { common } => CadTemplate::PlotSettingsObj { common },
        CadTemplate::ScaleObj { common } => CadTemplate::ScaleObj { common },
        CadTemplate::XRecordObj { common } => CadTemplate::XRecordObj { common },
        CadTemplate::GenericObject { common } => CadTemplate::GenericObject { common },
    }
}

/// A reader's result as the dispatch gives it: a template, with its
/// entity held as an [`AnyEntity`], or the reader's error.
pub open spec fn dispatched<E: AsAnyEntity>(r: Result<CadTemplate<XDataValue, E>, DxfError>)
    -> Result<Option<CadTemplate<XDataValue, AnyEntity>>, DxfError> {
    match r {
        Ok(t) => Ok(Some(any_template(t))),
        Err(e) => Err(e),
    }
}

/// A reader's result as the dispatch gives it (see [`dispatched`]).
fn dispatch_result<E: AsAnyEntity>(r: Result<CadTemplate<XDataValue, E>, DxfError>)
    -> (d: Result<Option<CadTemplate<XDataValue, AnyEntity>>, DxfError>)
    ensures
        d == dispatched(r),
{
    match r {
        Ok(t) => Ok(Some(into_any_template(t))),
        Err(e) => Err(e),
    }
}

/// `after` is `before` with one more diagnostic, a warning.
pub open spec fn warned(before: DwgObjectReader, after: DwgObjectReader) -> bool {
    &&& after.notes().len() == before.notes().len() + 1
    &&& after.notes().drop_last() == before.notes()
    &&& after.notes().last().notification_type == NotificationType::Warning
    &&& before.keeps_state(&after)
}

/// What reading an object of type `t` (stored with the code `code`) gives,
/// from the reader `before` to `after` and from the streams `st0` to `st1`:
/// the result of the reader of that type, its entity held as an
/// [`AnyEntity`]; `Ok(None)`, with nothing changed, for a type that has no
/// reader; for an unlisted type, see [`unlisted_read`].
pub open spec fn object_read(t: ObjectType, code: i16, before: DwgObjectReader, after: DwgObjectReader,
    st0: StreamSet, st1: StreamSet, r: Result<Option<CadTemplate<XDataValue, AnyEntity>>, DxfError>) -> bool {
    match t {
        ObjectType::Text => after == before && exists|r0: Result<CadTemplate<XDataValue, TextEntity>, DxfError>|
            #[trigger] read_text_outcome(before, st0, st1, r0) && r == dispatched(r0),
        ObjectType::Attrib => after == before && exists|r0: Result<CadTemplate<XDataValue, AttributeEntity>, DxfError>|
            #[trigger] read_attribute_outcome(before, st0, st1, r0) && r == dispatched(r0),
        ObjectType::Attdef => after == before && exists|r0: Result<CadTemplate<XDataValue, AttributeDefinition>, DxfError>|
            #[trigger] read_attribute_definition_outcome(before, st0, st1, r0) && r == dispatched(r0),
        ObjectType::Block => after == before && exists|r0: Result<CadTemplate<XDataValue, BlockEntity>, DxfError>|
            #[trigger] read_block_outcome(before, st0, st1, r0) && r == dispatched(r0),
        ObjectType::Endblk => after == before && exists|r0: Result<CadTemplate<XDataValue, MarkerEntity>, DxfError>|
            #[trigger] read_end_block_outcome(before, st0, st1, r0) && r == dispatched(r0),
        ObjectType::Seqend => after == before && exists|r0: Result<CadTemplate<XDataValue, MarkerEntity>, DxfError>|
            #[trigger] read_seqend_outcome(before, st0, st1, r0) && r == dispatched(r0),
        ObjectType::Insert => after == before && exists|r0: Result<CadTemplate<XDataValue, InsertEntity>, DxfError>|
            #[trigger] read_insert_outcome(before, st0, st1, r0) && r == dispatched(r0),
        ObjectType::Minsert => after == before && exists|r0: Result<CadTemplate<XDataValue, InsertEntity>, DxfError>|
            #[trigger] read_minsert_outcome(before, st0, st1, r0) && r == dispatched(r0),
        ObjectType::Vertex2D => after == before && exists|r0: Result<CadTemplate<XDataValue, UnknownEntity>, DxfError>|
            #[trigger] read_vertex_2d_outcome(before, st0, st1, r0) && r == dispatched(r0),
        ObjectType::Vertex3D => after == before && exists|r0: Result<CadTemplate<XDataValue, UnknownEntity>, DxfError>|
            #[trigger] read_vertex_3d_outcome(before, st0, st1, r0) && r == dispatched(r0),
        ObjectType::VertexMesh => after == before && exists|r0: Result<CadTemplate<XDataValue, UnknownEntity>, DxfError>|
            #[trigger] read_vertex_3d_outcome(before, st0, st1, r0) && r == dispatched(r0),
        ObjectType::VertexPface => after == before && exists|r0: Result<CadTemplate<XDataValue, UnknownEntity>, DxfError>|
            #[trigger] read_vertex_3d_outcome(before, st0, st1, r0) && r == dispatched(r0),
        ObjectType::VertexPfaceFace => after == before && exists|r0: Result<CadTemplate<XDataValue, UnknownEntity>, DxfError>|
            #[trigger] read_pface_vertex_outcome(before, st0, st1, r0) && r == dispatched(r0),
        ObjectType::Polyline2D => after == before && exists|r0: Result<CadTemplate<XDataValue, Polyline2DEntity>, DxfError>|
            #[trigger] read_polyline_2d_outcome(before, st0, st1, r0) && r == dispatched(r0),
        ObjectType::Polyline3D => after == before && exists|r0: Result<CadTemplate<XDataValue, PolylineHeaderEntity>, DxfError>|
            #[trigger] read_polyline_3d_outcome(before, st0, st1, r0) && r == dispatched(r0),
        ObjectType::Arc => after == before && exists|r0: Result<CadTemplate<XDataValue, ArcEntity>, DxfError>|
            #[trigger] read_arc_outcome(before, st0, st1, r0) && r == dispatched(r0),
        ObjectType::Circle => after == before && exists|r0: Result<CadTemplate<XDataValue, CircleEntity>, DxfError>|
            #[trigger] read_circle_outcome(before, st0, st1, r0) && r == dispatched(r0),
        ObjectType::Line => after == before && exists|r0: Result<CadTemplate<XDataValue, LineEntity>, DxfError>|
            #[trigger] read_line_outcome(before, st0, st1, r0) && r == dispatched(r0),
        ObjectType::DimensionOrdinate => after == before && exists|r0: Result<CadTemplate<XDataValue, DimensionEntity>, DxfError>|
            #[trigger] read_dim_ordinate_outcome(before, st0, st1, r0) && r == dispatched(r0),
        ObjectType::DimensionLinear => after == before && exists|r0: Result<CadTemplate<XDataValue, DimensionEntity>, DxfError>|
            #[trigger] read_dim_linear_outcome(before, st0, st1, r0) && r == dispatched(r0),
        ObjectType::DimensionAligned => after == before && exists|r0: Result<CadTemplate<XDataValue, DimensionEntity>, DxfError>|
            #[trigger] read_dim_aligned_outcome(before, st0, st1, r0) && r == dispatched(r0),
        ObjectType::DimensionAng3Pt => after == before && exists|r0: Result<CadTemplate<XDataValue, DimensionEntity>, DxfError>|
            #[trigger] read_dim_angular_3pt_outcome(before, st0, st1, r0) && r == dispatched(r0),
        ObjectType::DimensionAng2Ln => after == before && exists|r0: Result<CadTemplate<XDataValue, DimensionEntity>, DxfError>|
            #[trigger] read_dim_angular_2ln_outcome(before, st0, st1, r0) && r == dispatched(r0),
        ObjectType::DimensionRadius => after == before && exists|r0: Result<CadTemplate<XDataValue, DimensionEntity>, DxfError>|
            #[trigger] read_dim_radius_outcome(before, st0, st1, r0) && r == dispatched(r0),
        ObjectType::DimensionDiameter => after == before && exists|r0: Result<CadTemplate<XDataValue, DimensionEntity>, DxfError>|
            #[trigger] read_dim_diameter_outcome(before, st0, st1, r0) && r == dispatched(r0),
        ObjectType::Point => after == before && exists|r0: Result<CadTemplate<XDataValue, PointEntity>, DxfError>|
            #[trigger] read_point_outcome(before, st0, st1, r0) && r == dispatched(r0),
        ObjectType::Face3D => after == before && exists|r0: Result<CadTemplate<XDataValue, Face3DEntity>, DxfError>|
            #[trigger] read_3d_face_outcome(before, st0, st1, r0) && r == dispatched(r0),
        ObjectType::PolylinePface => after == before && exists|r0: Result<CadTemplate<XDataValue, PolylineHeaderEntity>, DxfError>|
            #[trigger] read_polyface_mesh_outcome(before, st0, st1, r0) && r == dispatched(r0),
        ObjectType::PolylineMesh => after == before && exists|r0: Result<CadTemplate<XDataValue, PolygonMeshEntity>, DxfError>|
            #[trigger] read_polygon_mesh_outcome(before, st0, st1, r0) && r == dispatched(r0),
        ObjectType::Solid => after == before && exists|r0: Result<CadTemplate<XDataValue, SolidEntity>, DxfError>|
            #[trigger] read_solid_outcome(before, st0, st1, r0) && r == dispatched(r0),
        ObjectType::Trace => after == before && exists|r0: Result<CadTemplate<XDataValue, SolidEntity>, DxfError>|
            #[trigger] read_solid_outcome(before, st0, st1, r0) && r == dispatched(r0),
        ObjectType::Shape => after == before && exists|r0: Result<CadTemplate<XDataValue, ShapeEntity>, DxfError>|
            #[trigger] read_shape_outcome(before, st0, st1, r0) && r == dispatched(r0),
        ObjectType::Ellipse => after == before && exists|r0: Result<CadTemplate<XDataValue, EllipseEntity>, DxfError>|
            #[trigger] read_ellipse_outcome(before, st0, st1, r0) && r == dispatched(r0),
        ObjectType::Region => after == before && exists|r0: Result<CadTemplate<XDataValue, ModelerEntity>, DxfError>|
            #[trigger] read_modeler_geometry_outcome(before, st0, st1, ModelerGeoType::Region, r0) && r == dispatched(r0),
        ObjectType::Solid3D => after == before && exists|r0: Result<CadTemplate<XDataValue, ModelerEntity>, DxfError>|
            #[trigger] read_solid_3d_outcome(before, st0, st1, r0) && r == dispatched(r0),
        ObjectType::Body => after == before && exists|r0: Result<CadTemplate<XDataValue, ModelerEntity>, DxfError>|
            #[trigger] read_modeler_geometry_outcome(before, st0, st1, ModelerGeoType::Body, r0) && r == dispatched(r0),
        ObjectType::Ray => after == before && exists|r0: Result<CadTemplate<XDataValue, RayEntity>, DxfError>|
            #[trigger] read_ray_outcome(before, st0, st1, r0) && r == dispatched(r0),
        ObjectType::Xline => after == before && exists|r0: Result<CadTemplate<XDataValue, RayEntity>, DxfError>|
            #[trigger] read_xline_outcome(before, st0, st1, r0) && r == dispatched(r0),
        ObjectType::Dictionary => after == before && exists|r0: Result<CadTemplate<XDataValue, AnyEntity>, DxfError>|
            #[trigger] read_dictionary_outcome::<AnyEntity>(before, st0, st1, r0) && r == dispatched(r0),
        ObjectType::OleFrame => exists|r0: Result<CadTemplate<XDataValue, UnknownEntity>, DxfError>|
            #[trigger] read_unknown_entity_outcome(before, st0, st1, r0) && r == dispatched(r0)
                && if r0 is Ok { warned(before, after) } else { after == before },
        ObjectType::Mtext => after == before && exists|r0: Result<CadTemplate<XDataValue, MTextEntity>, DxfError>|
            #[trigger] read_mtext_outcome(before, st0, st1, r0) && r == dispatched(r0),
        ObjectType::Leader => after == before && exists|r0: Result<CadTemplate<XDataValue, LeaderEntity>, DxfError>|
            #[trigger] read_leader_outcome(before, st0, st1, r0) && r == dispatched(r0),
        ObjectType::Tolerance => after == before && exists|r0: Result<CadTemplate<XDataValue, ToleranceEntity>, DxfError>|
            #[trigger] read_tolerance_outcome(before, st0, st1, r0) && r == dispatched(r0),
        ObjectType::BlockControlObj => after == before && exists|r0: Result<CadTemplate<XDataValue, AnyEntity>, DxfError>|
            #[trigger] read_block_control_outcome::<AnyEntity>(before, st0, st1, r0) && r == dispatched(r0),
        ObjectType::BlockHeader => after == before && exists|r0: Result<CadTemplate<XDataValue, AnyEntity>, DxfError>|
            #[trigger] read_block_header_outcome::<AnyEntity>(before, st0, st1, r0) && r == dispatched(r0),
        ObjectType::LayerControlObj => after == before && exists|r0: Result<CadTemplate<XDataValue, AnyEntity>, DxfError>|
            #[trigger] read_table_control_outcome::<AnyEntity>(before, st0, st1, TableControlType::LayerControl, r0) && r == dispatched(r0),
        ObjectType::Layer => after == before && exists|r0: Result<CadTemplate<XDataValue, AnyEntity>, DxfError>|
            #[trigger] read_layer_outcome::<AnyEntity>(before, st0, st1, r0) && r == dispatched(r0),
        ObjectType::StyleControlObj => after == before && exists|r0: Result<CadTemplate<XDataValue, AnyEntity>, DxfError>|
            #[trigger] read_table_control_outcome::<AnyEntity>(before, st0, st1, TableControlType::TextStyleControl, r0) && r == dispatched(r0),
        ObjectType::Style => after == before && exists|r0: Result<CadTemplate<XDataValue, AnyEntity>, DxfError>|
            #[trigger] read_text_style_outcome::<AnyEntity>(before, st0, st1, r0) && r == dispatched(r0),
        ObjectType::LtypeControlObj => after == before && exists|r0: Result<CadTemplate<XDataValue, AnyEntity>, DxfError>|
            #[trigger] read_ltype_control_outcome::<AnyEntity>(before, st0, st1, r0) && r == dispatched(r0),
        ObjectType::Ltype => after == before && exists|r0: Result<CadTemplate<XDataValue, AnyEntity>, DxfError>|
            #[trigger] read_ltype_outcome::<AnyEntity>(before, st0, st1, r0) && r == dispatched(r0),
        ObjectType::ViewControlObj => after == before && exists|r0: Result<CadTemplate<XDataValue, AnyEntity>, DxfError>|
            #[trigger] read_table_control_outcome::<AnyEntity>(before, st0, st1, TableControlType::ViewControl, r0) && r == dispatched(r0),
        ObjectType::View => after == before && exists|r0: Result<CadTemplate<XDataValue, AnyEntity>, DxfError>|
            #[trigger] read_view_outcome::<AnyEntity>(before, st0, st1, r0) && r == dispatched(r0),
        ObjectType::UcsControlObj => after == before && exists|r0: Result<CadTemplate<XDataValue, AnyEntity>, DxfError>|
            #[trigger] read_table_control_outcome::<AnyEntity>(before, st0, st1, TableControlType::UcsControl, r0) && r == dispatched(r0),
        ObjectType::Ucs => after == before && exists|r0: Result<CadTemplate<XDataValue, AnyEntity>, DxfError>|
            #[trigger] read_ucs_outcome::<AnyEntity>(before, st0, st1, r0) && r == dispatched(r0),
        ObjectType::VportControlObj => after == before && exists|r0: Result<CadTemplate<XDataValue, AnyEntity>, DxfError>|
            #[trigger] read_table_control_outcome::<AnyEntity>(before, st0, st1, TableControlType::VPortControl, r0) && r == dispatched(r0),
        ObjectType::Vport => after == before && exists|r0: Result<CadTemplate<XDataValue, AnyEntity>, DxfError>|
            #[trigger] read_vport_outcome::<AnyEntity>(before, st0, st1, r0) && r == dispatched(r0),
        ObjectType::AppidControlObj => after == before && exists|r0: Result<CadTemplate<XDataValue, AnyEntity>, DxfError>|
            #[trigger] read_table_control_outcome::<AnyEntity>(before, st0, st1, TableControlType::AppIdControl, r0) && r == dispatched(r0),
        ObjectType::Appid => after == before && exists|r0: Result<CadTemplate<XDataValue, AnyEntity>, DxfError>|
            #[trigger] read_appid_outcome::<AnyEntity>(before, st0, st1, r0) && r == dispatched(r0),
        ObjectType::DimstyleControlObj => after == before && exists|r0: Result<CadTemplate<XDataValue, AnyEntity>, DxfError>|
            #[trigger] read_table_control_outcome::<AnyEntity>(before, st0, st1, TableControlType::DimStyleControl, r0) && r == dispatched(r0),
        ObjectType::Dimstyle => after == before && exists|r0: Result<CadTemplate<XDataValue, AnyEntity>, DxfError>|
            #[trigger] read_dimstyle_outcome::<AnyEntity>(before, st0, st1, r0) && r == dispatched(r0),
        ObjectType::VpEntHdrCtrlObj => after == before && exists|r0: Result<CadTemplate<XDataValue, AnyEntity>, DxfError>|
            #[trigger] read_table_control_outcome::<AnyEntity>(before, st0, st1, TableControlType::ViewportEntityHeaderControl, r0) && r == dispatched(r0),
        ObjectType::VpEntHdr => after == before && exists|r0: Result<CadTemplate<XDataValue, AnyEntity>, DxfError>|
            #[trigger] read_viewport_entity_header_outcome::<AnyEntity>(before, st0, st1, r0) && r == dispatched(r0),
        ObjectType::Group => after == before && exists|r0: Result<CadTemplate<XDataValue, AnyEntity>, DxfError>|
            #[trigger] read_group_outcome::<AnyEntity>(before, st0, st1, r0) && r == dispatched(r0),
        ObjectType::MlineStyle => after == before && exists|r0: Result<CadTemplate<XDataValue, AnyEntity>, DxfError>|
            #[trigger] read_mline_style_outcome::<AnyEntity>(before, st0, st1, r0) && r == dispatched(r0),
        ObjectType::Dummy => exists|r0: Result<CadTemplate<XDataValue, UnknownEntity>, DxfError>|
            #[trigger] read_unknown_entity_outcome(before, st0, st1, r0) && r == dispatched(r0)
                && if r0 is Ok { warned(before, after) } else { after == before },
        ObjectType::LongTransaction => exists|r0: Result<CadTemplate<XDataValue, AnyEntity>, DxfError>|
            #[trigger] read_unknown_non_graphical_object_outcome::<AnyEntity>(before, st0, st1, r0) && r == dispatched(r0)
                && if r0 is Ok { warned(before, after) } else { after == before },
        ObjectType::LwPolyline => after == before && exists|r0: Result<CadTemplate<XDataValue, LwPolylineEntity>, DxfError>|
            #[trigger] read_lwpolyline_outcome(before, st0, st1, r0) && r == dispatched(r0),
        ObjectType::Hatch => after == before && exists|r0: Result<CadTemplate<XDataValue, HatchEntity>, DxfError>|
            #[trigger] read_hatch_outcome(before, st0, st1, r0) && r == dispatched(r0),
        ObjectType::XRecord => after == before && exists|r0: Result<CadTemplate<XDataValue, AnyEntity>, DxfError>|
            #[trigger] read_xrecord_outcome::<AnyEntity>(before, st0, st1, r0) && r == dispatched(r0),
        ObjectType::AcDbPlaceholder => after == before && exists|r0: Result<CadTemplate<XDataValue, AnyEntity>, DxfError>|
            #[trigger] read_placeholder_outcome::<AnyEntity>(before, st0, st1, r0) && r == dispatched(r0),
        ObjectType::VbaProject => exists|r0: Result<CadTemplate<XDataValue, AnyEntity>, DxfError>|
            #[trigger] read_unknown_non_graphical_object_outcome::<AnyEntity>(before, st0, st1, r0) && r == dispatched(r0)
                && if r0 is Ok { warned(before, after) } else { after == before },
        ObjectType::Layout => after == before && exists|r0: Result<CadTemplate<XDataValue, AnyEntity>, DxfError>|
            #[trigger] read_layout_outcome::<AnyEntity>(before, st0, st1, r0) && r == dispatched(r0),
        ObjectType::AcadProxyEntity => after == before && exists|r0: Result<CadTemplate<XDataValue, UnknownEntity>, DxfError>|
            #[trigger] read_proxy_entity_outcome(before, st0, st1, r0) && r == dispatched(r0),
        ObjectType::AcadProxyObject => after == before && exists|r0: Result<CadTemplate<XDataValue, AnyEntity>, DxfError>|
            #[trigger] read_proxy_object_outcome::<AnyEntity>(before, st0, st1, r0) && r == dispatched(r0),
        ObjectType::Ole2Frame => after == before && exists|r0: Result<CadTemplate<XDataValue, Ole2FrameEntity>, DxfError>|
            #[trigger] read_ole2frame_outcome(before, st0, st1, r0) && r == dispatched(r0),
        ObjectType::Unlisted => unlisted_read(code, before, after, st0, st1, r),
        _ => after == before && st1 == st0 && r == Ok::<Option<CadTemplate<XDataValue, AnyEntity>>, DxfError>(None),
    }
}


/// The entity data of `t`, for an entity template.
pub open spec fn entity_data_of<V, E>(t: CadTemplate<V, E>) -> Option<CadEntityTemplateData> {
    match t {
        CadTemplate::Entity { entity_data, .. } => Some(entity_data),
        CadTemplate::TextEntity { entity_data, .. } => Some(entity_data),
        CadTemplate::Insert { entity_data, .. } => Some(entity_data),
        CadTemplate::Polyline { entity_data, .. } => Some(entity_data),
        CadTemplate::Dimension { entity_data, .. } => Some(entity_data),
        CadTemplate::Leader { entity_data, .. } => Some(entity_data),
        CadTemplate::MultiLeader { entity_data, .. } => Some(entity_data),
        CadTemplate::Shape { entity_data, .. } => Some(entity_data),
        CadTemplate::Viewport { entity_data, .. } => Some(entity_data),
        CadTemplate::Hatch { entity_data, .. } => Some(entity_data),
        CadTemplate::Solid3D { entity_data, .. } => Some(entity_data),
        CadTemplate::Image { entity_data, .. } => Some(entity_data),
        CadTemplate::PolyfaceMesh { entity_data, .. } => Some(entity_data),
        _ => None,
    }
}

/// The handles that the template `t` refers to: its owner, its reactors
/// and its extended dictionary; for an entity, the entities before and
/// after it and its layer, line type, plot style, material and color
/// book color; for a table control, its entries; for a block record,
/// its first and last entity and the objects it owns.
pub open spec fn template_handles<E>(t: CadTemplate<XDataValue, E>) -> Seq<u64> {
    let c = template_common(t);
    let own = seq![c.owner_handle] + c.reactor_handles@ + seq![c.xdict_handle];
    let ent = match entity_data_of(t) {
        Some(d) => seq![d.prev_entity, d.next_entity, d.layer_handle, d.linetype_handle, d.plotstyle_handle,
            d.material_handle, d.color_handle],
        None => Seq::empty(),
    };
    let rest = match t {
        CadTemplate::TableControl { table_data, .. } => table_data.entry_handles@,
        CadTemplate::BlockHeader { block_data, .. } => seq![block_data.first_entity_handle,
            block_data.last_entity_handle] + block_data.owned_object_handles@,
        _ => Seq::empty(),
    };
    own + ent + rest
}

/// The entity data of `t`, for an entity template (see [`entity_data_of`]).
fn entity_data_ref<E>(t: &CadTemplate<XDataValue, E>) -> (r: Option<&CadEntityTemplateData>)
    ensures
        match r {
            Some(d) => entity_data_of(*t) == Some(*d),
            None => entity_data_of(*t) is None,
        },
{
    match t {
        CadTemplate::Entity { entity_data, .. } => Some(entity_data),
        CadTemplate::TextEntity { entity_data, .. } => Some(entity_data),
        CadTemplate::Insert { entity_data, .. } => Some(entity_data),
        CadTemplate::Polyline { entity_data, .. } => Some(entity_data),
        CadTemplate::Dimension { entity_data, .. } => Some(entity_data),
        CadTemplate::Leader { entity_data, .. } => Some(entity_data),
        CadTemplate::MultiLeader { entity_data, .. } => Some(entity_data),
        CadTemplate::Shape { entity_data, .. } => Some(entity_data),
        CadTemplate::Viewport { entity_data, .. } => Some(entity_data),
        CadTemplate::Hatch { entity_data, .. } => Some(entity_data),
        CadTemplate::Solid3D { entity_data, .. } => Some(entity_data),
        CadTemplate::Image { entity_data, .. } => Some(entity_data),
        CadTemplate::PolyfaceMesh { entity_data, .. } => Some(entity_data),
        _ => None,
    }
}


/// The handles that the template `t` refers to (see [`template_handles`]).
pub fn handles_of<E>(t: &CadTemplate<XDataValue, E>) -> (r: Vec<u64>)
    ensures
        r@ == template_handles(*t),
{
    let c = t.common();
    let mut out: Vec<u64> = Vec::new();
    out.push(c.owner_handle);
    let mut i: usize = 0;
    while i < c.reactor_handles.len()
        invariant
            i <= c.reactor_handles@.len(),
            out@ == seq![c.owner_handle] + c.reactor_handles@.take(i as int),
        decreases c.reactor_handles@.len() - i,
    {
        out.push(c.reactor_handles[i]);
        proof {
            assert(c.reactor_handles@.take(i + 1) =~= c.reactor_handles@.take(i as int).push(c.reactor_handles@[i as int]));
        }
        i = i + 1;
    }
    assert(c.reactor_handles@.take(c.reactor_handles@.len() as int) =~= c.reactor_handles@);
    out.push(c.xdict_handle);
    let ghost own = out@;
    assert(own =~= seq![c.owner_handle] + c.reactor_handles@ + seq![c.xdict_handle]);
    match entity_data_ref(t) {
        Some(d) => {
            out.push(d.prev_entity);
            out.push(d.next_entity);
            out.push(d.layer_handle);
            out.push(d.linetype_handle);
            out.push(d.plotstyle_handle);
            out.push(d.material_handle);
            out.push(d.color_handle);
        },
        None => {},
    }
    let ghost with_ent = out@;
    let extra: Option<&Vec<u64>> = match t {
        CadTemplate::TableControl { table_data, .. } => Some(&table_data.entry_handles),
        CadTemplate::BlockHeader { block_data, .. } => {
            out.push(block_data.first_entity_handle);
            out.push(block_data.last_entity_handle);
            Some(&block_data.owned_object_handles)
        },
        _ => None,
    };
    let ghost before_extra = out@;
    match extra {
        Some(v) => {
            let mut j: usize = 0;
            while j < v.len()
                invariant
                    j <= v@.len(),
                    out@ == before_extra + v@.take(j as int),
                decreases v@.len() - j,
            {
                out.push(v[j]);
                proof {
                    assert(v@.take(j + 1) =~= v@.take(j as int).push(v@[j as int]));
                }
                j = j + 1;
            }
            assert(v@.take(v@.len() as int) =~= v@);
        },
        None => {},
    }
    proof {
        let ent = match entity_data_of(*t) {
            Some(d) => seq![d.prev_entity, d.next_entity, d.layer_handle, d.linetype_handle, d.plotstyle_handle,
                d.material_handle, d.color_handle],
            None => Seq::<u64>::empty(),
        };
        assert(with_ent =~= own + ent);
        match t {
            CadTemplate::TableControl { table_data, .. } => {
                assert(out@ =~= own + ent + table_data.entry_handles@);
            },
            CadTemplate::BlockHeader { block_data, .. } => {
                assert(out@ =~= own + ent + (seq![block_data.first_entity_handle, block_data.last_entity_handle]
                    + block_data.owned_object_handles@));
            },
            _ => {
                assert(out@ =~= own + ent + Seq::<u64>::empty());
            },
        }
    }
    out
}

/// An ASCII letter in upper case; any other character as it is.
pub open spec fn ascii_upper(c: char) -> char {
    if 'a' <= c && c <= 'z' { ((c as u8 - 32) as u8) as char } else { c }
}

/// The name `s` with its ASCII letters in upper case.
pub open spec fn upper_name(s: Seq<char>) -> Seq<char> {
    s.map_values(|c: char| ascii_upper(c))
}

/// `c` in upper case, for an ASCII letter (see [`ascii_upper`]).
fn upper_char(c: char) -> (r: char)
    ensures
        r == ascii_upper(c),
{
    if c >= 'a' && c <= 'z' {
        ((c as u8) - 32) as char
    } else {
        c
    }
}

/// Whether `name`, its ASCII letters in upper case, is `upper`.
fn name_is(name: &str, upper: &str) -> (r: bool)
    ensures
        r == (upper_name(name@) == upper@),
{
    let n = name.unicode_len();
    let m = upper.unicode_len();
    if n != m {
        assert(upper_name(name@).len() != upper@.len());
        return false;
    }
    let mut i: usize = 0;
    while i < n
        invariant
            n == name@.len(),
            n == upper@.len(),
            i <= n,
            forall|j: int| 0 <= j < i ==> ascii_upper(name@[j]) == upper@[j],
        decreases n - i,
    {
        let u = upper_char(name.get_char(i));
        if u != upper.get_char(i) {
            assert(upper_name(name@)[i as int] != upper@[i as int]);
            return false;
        }
        i = i + 1;
    }
    assert(upper_name(name@) =~= upper@);
    true
}

/// What reading an object of a class type (stored with the code `code`)
/// gives, by the name of its class, in upper case: the reader of that
/// kind of object for the names that have one (multileaders among them);
/// `Ok(None)`, with nothing changed, for the kinds of class objects that
/// have no reader here;
/// otherwise a warning and the object read as an unknown entity, or as a
/// generic object where the class is not one of entities.  With no class
/// of that number, a warning and `Ok(None)`.
pub open spec fn unlisted_read(code: i16, before: DwgObjectReader, after: DwgObjectReader,
    st0: StreamSet, st1: StreamSet, r: Result<Option<CadTemplate<XDataValue, AnyEntity>>, DxfError>) -> bool {
    if !before.class_map().dom().contains(code) {
        warned(before, after) && st1 == st0 && r == Ok::<Option<CadTemplate<XDataValue, AnyEntity>>, DxfError>(None)
    } else {
        let name = upper_name(before.class_map()[code].dxf_name);
        if name == "ACDBDICTIONARYWDFLT"@ || name == "DICTIONARYWDFLT"@ {
            after == before && exists|r0: Result<CadTemplate<XDataValue, AnyEntity>, DxfError>|
                #[trigger] read_dictionary_with_default_outcome::<AnyEntity>(before, st0, st1, r0) && r == dispatched(r0)
        } else if name == "DICTIONARYVAR"@ {
            after == before && exists|r0: Result<CadTemplate<XDataValue, AnyEntity>, DxfError>|
                #[trigger] read_dictionary_var_outcome::<AnyEntity>(before, st0, st1, r0) && r == dispatched(r0)
        } else if name == "DBCOLOR"@ {
            after == before && exists|r0: Result<CadTemplate<XDataValue, AnyEntity>, DxfError>|
                #[trigger] read_db_color_outcome::<AnyEntity>(before, st0, st1, r0) && r == dispatched(r0)
        } else if name == "IMAGEDEF"@ {
            after == before && exists|r0: Result<CadTemplate<XDataValue, AnyEntity>, DxfError>|
                #[trigger] read_image_definition_outcome::<AnyEntity>(before, st0, st1, r0) && r == dispatched(r0)
        } else if name == "IMAGEDEF_REACTOR"@ {
            after == before && exists|r0: Result<CadTemplate<XDataValue, AnyEntity>, DxfError>|
                #[trigger] read_image_definition_reactor_outcome::<AnyEntity>(before, st0, st1, r0) && r == dispatched(r0)
        } else if name == "RASTERVARIABLES"@ {
            after == before && exists|r0: Result<CadTemplate<XDataValue, AnyEntity>, DxfError>|
                #[trigger] read_raster_variables_outcome::<AnyEntity>(before, st0, st1, r0) && r == dispatched(r0)
        } else if name == "SCALE"@ {
            after == before && exists|r0: Result<CadTemplate<XDataValue, AnyEntity>, DxfError>|
                #[trigger] read_scale_outcome::<AnyEntity>(before, st0, st1, r0) && r == dispatched(r0)
        } else if name == "SORTENTSTABLE"@ {
            after == before && exists|r0: Result<CadTemplate<XDataValue, AnyEntity>, DxfError>|
                #[trigger] read_sort_entities_table_outcome::<AnyEntity>(before, st0, st1, r0) && r == dispatched(r0)
        } else if name == "MLEADERSTYLE"@ {
            after == before && exists|r0: Result<CadTemplate<XDataValue, AnyEntity>, DxfError>|
                #[trigger] read_mleader_style_outcome::<AnyEntity>(before, st0, st1, r0) && r == dispatched(r0)
        } else if name == "VISUALSTYLE"@ {
            after == before && exists|r0: Result<CadTemplate<XDataValue, AnyEntity>, DxfError>|
                #[trigger] read_visual_style_outcome::<AnyEntity>(before, st0, st1, r0) && r == dispatched(r0)
        } else if name == "MATERIAL"@ {
            after == before && exists|r0: Result<CadTemplate<XDataValue, AnyEntity>, DxfError>|
                #[trigger] read_material_outcome::<AnyEntity>(before, st0, st1, r0) && r == dispatched(r0)
        } else if name == "PLOTSETTINGS"@ {
            after == before && exists|r0: Result<CadTemplate<XDataValue, AnyEntity>, DxfError>|
                #[trigger] read_plot_settings_outcome::<AnyEntity>(before, st0, st1, r0) && r == dispatched(r0)
        } else if name == "TABLESTYLE"@ {
            after == before && exists|r0: Result<CadTemplate<XDataValue, AnyEntity>, DxfError>|
                #[trigger] read_table_style_outcome::<AnyEntity>(before, st0, st1, r0) && r == dispatched(r0)
        } else if name == "PDFDEFINITION"@ || name == "DWFDEFINITION"@ || name == "DGNDEFINITION"@ {
            after == before && exists|r0: Result<CadTemplate<XDataValue, AnyEntity>, DxfError>|
                #[trigger] read_pdf_definition_outcome::<AnyEntity>(before, st0, st1, r0) && r == dispatched(r0)
        } else if name == "XRECORD"@ {
            after == before && exists|r0: Result<CadTemplate<XDataValue, AnyEntity>, DxfError>|
                #[trigger] read_xrecord_outcome::<AnyEntity>(before, st0, st1, r0) && r == dispatched(r0)
        } else if name == "ACDBPLACEHOLDER"@ || name == "PLACEHOLDER"@ {
            after == before && exists|r0: Result<CadTemplate<XDataValue, AnyEntity>, DxfError>|
                #[trigger] read_acdb_placeholder_outcome::<AnyEntity>(before, st0, st1, r0) && r == dispatched(r0)
        } else if name == "WIPEOUTVARIABLES"@ {
            after == before && exists|r0: Result<CadTemplate<XDataValue, AnyEntity>, DxfError>|
                #[trigger] read_wipeout_variables_outcome::<AnyEntity>(before, st0, st1, r0) && r == dispatched(r0)
        } else if name == "MULTILEADER"@ || name == "ACDB_MLEADER_CLASS"@ {
            after == before && exists|r0: Result<CadTemplate<XDataValue, MultiLeaderEntity>, DxfError>|
                #[trigger] read_multileader_outcome(before, st0, st1, r0) && r == dispatched(r0)
        } else if name == "MESH"@ || name == "PDFUNDERLAY"@ || name == "DWFUNDERLAY"@ || name == "DGNUNDERLAY"@ || name == "ACAD_TABLE"@ || name == "IMAGE"@ || name == "WIPEOUT"@ || name == "GEODATA"@ || name == "ACAD_EVALUATION_GRAPH"@ {
            after == before && st1 == st0 && r == Ok::<Option<CadTemplate<XDataValue, AnyEntity>>, DxfError>(None)
        } else if before.class_map()[code].is_an_entity {
            warned(before, after) && exists|r0: Result<CadTemplate<XDataValue, UnknownEntity>, DxfError>|
                #[trigger] read_unknown_entity_outcome(before, st0, st1, r0) && r == dispatched(r0)
        } else {
            warned(before, after) && exists|r0: Result<CadTemplate<XDataValue, AnyEntity>, DxfError>|
                #[trigger] read_unknown_non_graphical_object_outcome::<AnyEntity>(before, st0, st1, r0)
                    && r == dispatched(r0)
        }
    }
}


impl DwgObjectReader {
    /// Read an object of a class type, stored with the code `code`, by the
    /// name of its class (see [`unlisted_read`]).
    pub fn read_unlisted_type(&mut self, code: i16, streams: &mut StreamSet)
        -> (r: Result<Option<CadTemplate<XDataValue, AnyEntity>>, DxfError>)
        requires
            old(self).inv(),
            streams_of(*old(streams), old(self).data(), old(self).spec_version()),
        ensures
            final(self).inv(),
            unlisted_read(code, *old(self), *final(self), *old(streams), *final(streams), r),
    {
        let (name, is_entity) = match self.class_info(code) {
            None => {
                self.notify("Unknown class number: no class of the drawing has it", NotificationType::Warning);
                return Ok(None);
            },
            Some(info) => info,
        };
        let n = name.as_str();
        if name_is(n, "ACDBDICTIONARYWDFLT") || name_is(n, "DICTIONARYWDFLT") {
            let t = self.read_dictionary_with_default::<AnyEntity>(streams);
            proof { assert(read_dictionary_with_default_outcome::<AnyEntity>(*old(self), *old(streams), *streams, t)); }
            dispatch_result(t)
        } else if name_is(n, "DICTIONARYVAR") {
            let t = self.read_dictionary_var::<AnyEntity>(streams);
            proof { assert(read_dictionary_var_outcome::<AnyEntity>(*old(self), *old(streams), *streams, t)); }
            dispatch_result(t)
        } else if name_is(n, "DBCOLOR") {
            let t = self.read_db_color::<AnyEntity>(streams);
            proof { assert(read_db_color_outcome::<AnyEntity>(*old(self), *old(streams), *streams, t)); }
            dispatch_result(t)
        } else if name_is(n, "IMAGEDEF") {
            let t = self.read_image_definition::<AnyEntity>(streams);
            proof { assert(read_image_definition_outcome::<AnyEntity>(*old(self), *old(streams), *streams, t)); }
            dispatch_result(t)
        } else if name_is(n, "IMAGEDEF_REACTOR") {
            let t = self.read_image_definition_reactor::<AnyEntity>(streams);
            proof { assert(read_image_definition_reactor_outcome::<AnyEntity>(*old(self), *old(streams), *streams, t)); }
            dispatch_result(t)
        } else if name_is(n, "RASTERVARIABLES") {
            let t = self.read_raster_variables::<AnyEntity>(streams);
            proof { assert(read_raster_variables_outcome::<AnyEntity>(*old(self), *old(streams), *streams, t)); }
            dispatch_result(t)
        } else if name_is(n, "SCALE") {
            let t = self.read_scale::<AnyEntity>(streams);
            proof { assert(read_scale_outcome::<AnyEntity>(*old(self), *old(streams), *streams, t)); }
            dispatch_result(t)
        } else if name_is(n, "SORTENTSTABLE") {
            let t = self.read_sort_entities_table::<AnyEntity>(streams);
            proof { assert(read_sort_entities_table_outcome::<AnyEntity>(*old(self), *old(streams), *streams, t)); }
            dispatch_result(t)
        } else if name_is(n, "MLEADERSTYLE") {
            let t = self.read_mleader_style::<AnyEntity>(streams);
            proof { assert(read_mleader_style_outcome::<AnyEntity>(*old(self), *old(streams), *streams, t)); }
            dispatch_result(t)
        } else if name_is(n, "VISUALSTYLE") {
            let t = self.read_visual_style::<AnyEntity>(streams);
            proof { assert(read_visual_style_outcome::<AnyEntity>(*old(self), *old(streams), *streams, t)); }
            dispatch_result(t)
        } else if name_is(n, "MATERIAL") {
            let t = self.read_material::<AnyEntity>(streams);
            proof { assert(read_material_outcome::<AnyEntity>(*old(self), *old(streams), *streams, t)); }
            dispatch_result(t)
        } else if name_is(n, "PLOTSETTINGS") {
            let t = self.read_plot_settings::<AnyEntity>(streams);
            proof { assert(read_plot_settings_outcome::<AnyEntity>(*old(self), *old(streams), *streams, t)); }
            dispatch_result(t)
        } else if name_is(n, "TABLESTYLE") {
            let t = self.read_table_style::<AnyEntity>(streams);
            proof { assert(read_table_style_outcome::<AnyEntity>(*old(self), *old(streams), *streams, t)); }
            dispatch_result(t)
        } else if name_is(n, "PDFDEFINITION") || name_is(n, "DWFDEFINITION") || name_is(n, "DGNDEFINITION") {
            let t = self.read_pdf_definition::<AnyEntity>(streams);
            proof { assert(read_pdf_definition_outcome::<AnyEntity>(*old(self), *old(streams), *streams, t)); }
            dispatch_result(t)
        } else if name_is(n, "XRECORD") {
            let t = self.read_xrecord::<AnyEntity>(streams);
            proof { assert(read_xrecord_outcome::<AnyEntity>(*old(self), *old(streams), *streams, t)); }
            dispatch_result(t)
        } else if name_is(n, "ACDBPLACEHOLDER") || name_is(n, "PLACEHOLDER") {
            let t = self.read_acdb_placeholder::<AnyEntity>(streams);
            proof { assert(read_acdb_placeholder_outcome::<AnyEntity>(*old(self), *old(streams), *streams, t)); }
            dispatch_result(t)
        } else if name_is(n, "WIPEOUTVARIABLES") {
            let t = self.read_wipeout_variables::<AnyEntity>(streams);
            proof { assert(read_wipeout_variables_outcome::<AnyEntity>(*old(self), *old(streams), *streams, t)); }
            dispatch_result(t)
        } else if name_is(n, "MULTILEADER") || name_is(n, "ACDB_MLEADER_CLASS") {
            let t = self.read_multileader(streams);
            proof { assert(read_multileader_outcome(*old(self), *old(streams), *streams, t)); }
            dispatch_result(t)
        } else if name_is(n, "MESH") || name_is(n, "PDFUNDERLAY") || name_is(n, "DWFUNDERLAY") || name_is(n, "DGNUNDERLAY") || name_is(n, "ACAD_TABLE") || name_is(n, "IMAGE") || name_is(n, "WIPEOUT") || name_is(n, "GEODATA") || name_is(n, "ACAD_EVALUATION_GRAPH") {
            Ok(None)
        } else if is_entity {
            self.notify("Unlisted entity type read as an unknown entity", NotificationType::Warning);
            let ghost mid = *self;
            let t = self.read_unknown_entity(streams);
            proof {
                assert(read_unknown_entity_outcome(mid, *old(streams), *streams, t));
                assert(read_unknown_entity_outcome(*old(self), *old(streams), *streams, t));
            }
            dispatch_result(t)
        } else {
            self.notify("Unlisted object type read as a generic object", NotificationType::Warning);
            let ghost mid = *self;
            let t = self.read_unknown_non_graphical_object::<AnyEntity>(streams);
            proof {
                assert(read_unknown_non_graphical_object_outcome::<AnyEntity>(mid, *old(streams), *streams, t));
                assert(read_unknown_non_graphical_object_outcome::<AnyEntity>(*old(self), *old(streams), *streams, t));
            }
            dispatch_result(t)
        }
    }


    /// Read an object of type `obj_type`, stored with the code `raw_type`,
    /// with the reader of its type (see [`object_read`]).
    pub fn read_object(&mut self, obj_type: ObjectType, raw_type: i16, streams: &mut StreamSet)
        -> (r: Result<Option<CadTemplate<XDataValue, AnyEntity>>, DxfError>)
        requires
            old(self).inv(),
            streams_of(*old(streams), old(self).data(), old(self).spec_version()),
        ensures
            final(self).inv(),
            old(self).keeps_state(final(self)),
            old(self).notes().is_prefix_of(final(self).notes()),
            object_read(obj_type, raw_type, *old(self), *final(self), *old(streams), *final(streams), r),
    {
        match obj_type {
            ObjectType::Text => {
                let t = self.read_text(streams);
                proof { assert(read_text_outcome(*old(self), *old(streams), *streams, t)); }
                dispatch_result(t)
            },
            ObjectType::Attrib => {
                let t = self.read_attribute(streams);
                proof { assert(read_attribute_outcome(*old(self), *old(streams), *streams, t)); }
                dispatch_result(t)
            },
            ObjectType::Attdef => {
                let t = self.read_attribute_definition(streams);
                proof { assert(read_attribute_definition_outcome(*old(self), *old(streams), *streams, t)); }
                dispatch_result(t)
            },
            ObjectType::Block => {
                let t = self.read_block(streams);
                proof { assert(read_block_outcome(*old(self), *old(streams), *streams, t)); }
                dispatch_result(t)
            },
            ObjectType::Endblk => {
                let t = self.read_end_block(streams);
                proof { assert(read_end_block_outcome(*old(self), *old(streams), *streams, t)); }
                dispatch_result(t)
            },
            ObjectType::Seqend => {
                let t = self.read_seqend(streams);
                proof { assert(read_seqend_outcome(*old(self), *old(streams), *streams, t)); }
                dispatch_result(t)
            },
            ObjectType::Insert => {
                let t = self.read_insert(streams);
                proof { assert(read_insert_outcome(*old(self), *old(streams), *streams, t)); }
                dispatch_result(t)
            },
            ObjectType::Minsert => {
                let t = self.read_minsert(streams);
                proof { assert(read_minsert_outcome(*old(self), *old(streams), *streams, t)); }
                dispatch_result(t)
            },
            ObjectType::Vertex2D => {
                let t = self.read_vertex_2d(streams);
                proof { assert(read_vertex_2d_outcome(*old(self), *old(streams), *streams, t)); }
                dispatch_result(t)
            },
            ObjectType::Vertex3D => {
                let t = self.read_vertex_3d(streams);
                proof { assert(read_vertex_3d_outcome(*old(self), *old(streams), *streams, t)); }
                dispatch_result(t)
            },
            ObjectType::VertexMesh => {
                let t = self.read_vertex_3d(streams);
                proof { assert(read_vertex_3d_outcome(*old(self), *old(streams), *streams, t)); }
                dispatch_result(t)
            },
            ObjectType::VertexPface => {
                let t = self.read_vertex_3d(streams);
                proof { assert(read_vertex_3d_outcome(*old(self), *old(streams), *streams, t)); }
                dispatch_result(t)
            },
            ObjectType::VertexPfaceFace => {
                let t = self.read_pface_vertex(streams);
                proof { assert(read_pface_vertex_outcome(*old(self), *old(streams), *streams, t)); }
                dispatch_result(t)
            },
            ObjectType::Polyline2D => {
                let t = self.read_polyline_2d(streams);
                proof { assert(read_polyline_2d_outcome(*old(self), *old(streams), *streams, t)); }
                dispatch_result(t)
            },
            ObjectType::Polyline3D => {
                let t = self.read_polyline_3d(streams);
                proof { assert(read_polyline_3d_outcome(*old(self), *old(streams), *streams, t)); }
                dispatch_result(t)
            },
            ObjectType::Arc => {
                let t = self.read_arc(streams);
                proof { assert(read_arc_outcome(*old(self), *old(streams), *streams, t)); }
                dispatch_result(t)
            },
            ObjectType::Circle => {
                let t = self.read_circle(streams);
                proof { assert(read_circle_outcome(*old(self), *old(streams), *streams, t)); }
                dispatch_result(t)
            },
            ObjectType::Line => {
                let t = self.read_line(streams);
                proof { assert(read_line_outcome(*old(self), *old(streams), *streams, t)); }
                dispatch_result(t)
            },
            ObjectType::DimensionOrdinate => {
                let t = self.read_dim_ordinate(streams);
                proof { assert(read_dim_ordinate_outcome(*old(self), *old(streams), *streams, t)); }
                dispatch_result(t)
            },
            ObjectType::DimensionLinear => {
                let t = self.read_dim_linear(streams);
                proof { assert(read_dim_linear_outcome(*old(self), *old(streams), *streams, t)); }
                dispatch_result(t)
            },
            ObjectType::DimensionAligned => {
                let t = self.read_dim_aligned(streams);
                proof { assert(read_dim_aligned_outcome(*old(self), *old(streams), *streams, t)); }
                dispatch_result(t)
            },
            ObjectType::DimensionAng3Pt => {
                let t = self.read_dim_angular_3pt(streams);
                proof { assert(read_dim_angular_3pt_outcome(*old(self), *old(streams), *streams, t)); }
                dispatch_result(t)
            },
            ObjectType::DimensionAng2Ln => {
                let t = self.read_dim_angular_2ln(streams);
                proof { assert(read_dim_angular_2ln_outcome(*old(self), *old(streams), *streams, t)); }
                dispatch_result(t)
            },
            ObjectType::DimensionRadius => {
                let t = self.read_dim_radius(streams);
                proof { assert(read_dim_radius_outcome(*old(self), *old(streams), *streams, t)); }
                dispatch_result(t)
            },
            ObjectType::DimensionDiameter => {
                let t = self.read_dim_diameter(streams);
                proof { assert(read_dim_diameter_outcome(*old(self), *old(streams), *streams, t)); }
                dispatch_result(t)
            },
            ObjectType::Point => {
                let t = self.read_point(streams);
                proof { assert(read_point_outcome(*old(self), *old(streams), *streams, t)); }
                dispatch_result(t)
            },
            ObjectType::Face3D => {
                let t = self.read_3d_face(streams);
                proof { assert(read_3d_face_outcome(*old(self), *old(streams), *streams, t)); }
                dispatch_result(t)
            },
            ObjectType::PolylinePface => {
                let t = self.read_polyface_mesh(streams);
                proof { assert(read_polyface_mesh_outcome(*old(self), *old(streams), *streams, t)); }
                dispatch_result(t)
            },
            ObjectType::PolylineMesh => {
                let t = self.read_polygon_mesh(streams);
                proof { assert(read_polygon_mesh_outcome(*old(self), *old(streams), *streams, t)); }
                dispatch_result(t)
            },
            ObjectType::Solid => {
                let t = self.read_solid(streams);
                proof { assert(read_solid_outcome(*old(self), *old(streams), *streams, t)); }
                dispatch_result(t)
            },
            ObjectType::Trace => {
                let t = self.read_solid(streams);
                proof { assert(read_solid_outcome(*old(self), *old(streams), *streams, t)); }
                dispatch_result(t)
            },
            ObjectType::Shape => {
                let t = self.read_shape(streams);
                proof { assert(read_shape_outcome(*old(self), *old(streams), *streams, t)); }
                dispatch_result(t)
            },
            ObjectType::Ellipse => {
                let t = self.read_ellipse(streams);
                proof { assert(read_ellipse_outcome(*old(self), *old(streams), *streams, t)); }
                dispatch_result(t)
            },
            ObjectType::Region => {
                let t = self.read_modeler_geometry(streams, ModelerGeoType::Region);
                proof { assert(read_modeler_geometry_outcome(*old(self), *old(streams), *streams, ModelerGeoType::Region, t)); }
                dispatch_result(t)
            },
            ObjectType::Solid3D => {
                let t = self.read_solid_3d(streams);
                proof { assert(read_solid_3d_outcome(*old(self), *old(streams), *streams, t)); }
                dispatch_result(t)
            },
            ObjectType::Body => {
                let t = self.read_modeler_geometry(streams, ModelerGeoType::Body);
                proof { assert(read_modeler_geometry_outcome(*old(self), *old(streams), *streams, ModelerGeoType::Body, t)); }
                dispatch_result(t)
            },
            ObjectType::Ray => {
                let t = self.read_ray(streams);
                proof { assert(read_ray_outcome(*old(self), *old(streams), *streams, t)); }
                dispatch_result(t)
            },
            ObjectType::Xline => {
                let t = self.read_xline(streams);
                proof { assert(read_xline_outcome(*old(self), *old(streams), *streams, t)); }
                dispatch_result(t)
            },
            ObjectType::Dictionary => {
                let t = self.read_dictionary::<AnyEntity>(streams);
                proof { assert(read_dictionary_outcome::<AnyEntity>(*old(self), *old(streams), *streams, t)); }
                dispatch_result(t)
            },
            ObjectType::OleFrame => {
                let t = self.read_unknown_entity(streams);
                proof { assert(read_unknown_entity_outcome(*old(self), *old(streams), *streams, t)); }
                if t.is_ok() {
                    self.notify("Unlisted object type read as a generic object", NotificationType::Warning);
                }
                dispatch_result(t)
            },
            ObjectType::Mtext => {
                let t = self.read_mtext(streams);
                proof { assert(read_mtext_outcome(*old(self), *old(streams), *streams, t)); }
                dispatch_result(t)
            },
            ObjectType::Leader => {
                let t = self.read_leader(streams);
                proof { assert(read_leader_outcome(*old(self), *old(streams), *streams, t)); }
                dispatch_result(t)
            },
            ObjectType::Tolerance => {
                let t = self.read_tolerance(streams);
                proof { assert(read_tolerance_outcome(*old(self), *old(streams), *streams, t)); }
                dispatch_result(t)
            },
            ObjectType::BlockControlObj => {
                let t = self.read_block_control::<AnyEntity>(streams);
                proof { assert(read_block_control_outcome::<AnyEntity>(*old(self), *old(streams), *streams, t)); }
                dispatch_result(t)
            },
            ObjectType::BlockHeader => {
                let t = self.read_block_header::<AnyEntity>(streams);
                proof { assert(read_block_header_outcome::<AnyEntity>(*old(self), *old(streams), *streams, t)); }
                dispatch_result(t)
            },
            ObjectType::LayerControlObj => {
                let t = self.read_table_control::<AnyEntity>(streams, TableControlType::LayerControl);
                proof { assert(read_table_control_outcome::<AnyEntity>(*old(self), *old(streams), *streams, TableControlType::LayerControl, t)); }
                dispatch_result(t)
            },
            ObjectType::Layer => {
                let t = self.read_layer::<AnyEntity>(streams);
                proof { assert(read_layer_outcome::<AnyEntity>(*old(self), *old(streams), *streams, t)); }
                dispatch_result(t)
            },
            ObjectType::StyleControlObj => {
                let t = self.read_table_control::<AnyEntity>(streams, TableControlType::TextStyleControl);
                proof { assert(read_table_control_outcome::<AnyEntity>(*old(self), *old(streams), *streams, TableControlType::TextStyleControl, t)); }
                dispatch_result(t)
            },
            ObjectType::Style => {
                let t = self.read_text_style::<AnyEntity>(streams);
                proof { assert(read_text_style_outcome::<AnyEntity>(*old(self), *old(streams), *streams, t)); }
                dispatch_result(t)
            },
            ObjectType::LtypeControlObj => {
                let t = self.read_ltype_control::<AnyEntity>(streams);
                proof { assert(read_ltype_control_outcome::<AnyEntity>(*old(self), *old(streams), *streams, t)); }
                dispatch_result(t)
            },
            ObjectType::Ltype => {
                let t = self.read_ltype::<AnyEntity>(streams);
                proof { assert(read_ltype_outcome::<AnyEntity>(*old(self), *old(streams), *streams, t)); }
                dispatch_result(t)
            },
            ObjectType::ViewControlObj => {
                let t = self.read_table_control::<AnyEntity>(streams, TableControlType::ViewControl);
                proof { assert(read_table_control_outcome::<AnyEntity>(*old(self), *old(streams), *streams, TableControlType::ViewControl, t)); }
                dispatch_result(t)
            },
            ObjectType::View => {
                let t = self.read_view::<AnyEntity>(streams);
                proof { assert(read_view_outcome::<AnyEntity>(*old(self), *old(streams), *streams, t)); }
                dispatch_result(t)
            },
            ObjectType::UcsControlObj => {
                let t = self.read_table_control::<AnyEntity>(streams, TableControlType::UcsControl);
                proof { assert(read_table_control_outcome::<AnyEntity>(*old(self), *old(streams), *streams, TableControlType::UcsControl, t)); }
                dispatch_result(t)
            },
            ObjectType::Ucs => {
                let t = self.read_ucs::<AnyEntity>(streams);
                proof { assert(read_ucs_outcome::<AnyEntity>(*old(self), *old(streams), *streams, t)); }
                dispatch_result(t)
            },
            ObjectType::VportControlObj => {
                let t = self.read_table_control::<AnyEntity>(streams, TableControlType::VPortControl);
                proof { assert(read_table_control_outcome::<AnyEntity>(*old(self), *old(streams), *streams, TableControlType::VPortControl, t)); }
                dispatch_result(t)
            },
            ObjectType::Vport => {
                let t = self.read_vport::<AnyEntity>(streams);
                proof { assert(read_vport_outcome::<AnyEntity>(*old(self), *old(streams), *streams, t)); }
                dispatch_result(t)
            },
            ObjectType::AppidControlObj => {
                let t = self.read_table_control::<AnyEntity>(streams, TableControlType::AppIdControl);
                proof { assert(read_table_control_outcome::<AnyEntity>(*old(self), *old(streams), *streams, TableControlType::AppIdControl, t)); }
                dispatch_result(t)
            },
            ObjectType::Appid => {
                let t = self.read_appid::<AnyEntity>(streams);
                proof { assert(read_appid_outcome::<AnyEntity>(*old(self), *old(streams), *streams, t)); }
                dispatch_result(t)
            },
            ObjectType::DimstyleControlObj => {
                let t = self.read_table_control::<AnyEntity>(streams, TableControlType::DimStyleControl);
                proof { assert(read_table_control_outcome::<AnyEntity>(*old(self), *old(streams), *streams, TableControlType::DimStyleControl, t)); }
                dispatch_result(t)
            },
            ObjectType::Dimstyle => {
                let t = self.read_dimstyle::<AnyEntity>(streams);
                proof { assert(read_dimstyle_outcome::<AnyEntity>(*old(self), *old(streams), *streams, t)); }
                dispatch_result(t)
            },
            ObjectType::VpEntHdrCtrlObj => {
                let t = self.read_table_control::<AnyEntity>(streams, TableControlType::ViewportEntityHeaderControl);
                proof { assert(read_table_control_outcome::<AnyEntity>(*old(self), *old(streams), *streams, TableControlType::ViewportEntityHeaderControl, t)); }
                dispatch_result(t)
            },
            ObjectType::VpEntHdr => {
                let t = self.read_viewport_entity_header::<AnyEntity>(streams);
                proof { assert(read_viewport_entity_header_outcome::<AnyEntity>(*old(self), *old(streams), *streams, t)); }
                dispatch_result(t)
            },
            ObjectType::Group => {
                let t = self.read_group::<AnyEntity>(streams);
                proof { assert(read_group_outcome::<AnyEntity>(*old(self), *old(streams), *streams, t)); }
                dispatch_result(t)
            },
            ObjectType::MlineStyle => {
                let t = self.read_mline_style::<AnyEntity>(streams);
                proof { assert(read_mline_style_outcome::<AnyEntity>(*old(self), *old(streams), *streams, t)); }
                dispatch_result(t)
            },
            ObjectType::Dummy => {
                let t = self.read_unknown_entity(streams);
                proof { assert(read_unknown_entity_outcome(*old(self), *old(streams), *streams, t)); }
                if t.is_ok() {
                    self.notify("Unlisted object type read as a generic object", NotificationType::Warning);
                }
                dispatch_result(t)
            },
            ObjectType::LongTransaction => {
                let t = self.read_unknown_non_graphical_object::<AnyEntity>(streams);
                proof { assert(read_unknown_non_graphical_object_outcome::<AnyEntity>(*old(self), *old(streams), *streams, t)); }
                if t.is_ok() {
                    self.notify("Unlisted object type read as a generic object", NotificationType::Warning);
                }
                dispatch_result(t)
            },
            ObjectType::LwPolyline => {
                let t = self.read_lwpolyline(streams);
                proof { assert(read_lwpolyline_outcome(*old(self), *old(streams), *streams, t)); }
                dispatch_result(t)
            },
            ObjectType::Hatch => {
                let t = self.read_hatch(streams);
                proof { assert(read_hatch_outcome(*old(self), *old(streams), *streams, t)); }
                dispatch_result(t)
            },
            ObjectType::XRecord => {
                let t = self.read_xrecord::<AnyEntity>(streams);
                proof { assert(read_xrecord_outcome::<AnyEntity>(*old(self), *old(streams), *streams, t)); }
                dispatch_result(t)
            },
            ObjectType::AcDbPlaceholder => {
                let t = self.read_placeholder::<AnyEntity>(streams);
                proof { assert(read_placeholder_outcome::<AnyEntity>(*old(self), *old(streams), *streams, t)); }
                dispatch_result(t)
            },
            ObjectType::VbaProject => {
                let t = self.read_unknown_non_graphical_object::<AnyEntity>(streams);
                proof { assert(read_unknown_non_graphical_object_outcome::<AnyEntity>(*old(self), *old(streams), *streams, t)); }
                if t.is_ok() {
                    self.notify("Unlisted object type read as a generic object", NotificationType::Warning);
                }
                dispatch_result(t)
            },
            ObjectType::Layout => {
                let t = self.read_layout::<AnyEntity>(streams);
                proof { assert(read_layout_outcome::<AnyEntity>(*old(self), *old(streams), *streams, t)); }
                dispatch_result(t)
            },
            ObjectType::AcadProxyEntity => {
                let t = self.read_proxy_entity(streams);
                proof { assert(read_proxy_entity_outcome(*old(self), *old(streams), *streams, t)); }
                dispatch_result(t)
            },
            ObjectType::AcadProxyObject => {
                let t = self.read_proxy_object::<AnyEntity>(streams);
                proof { assert(read_proxy_object_outcome::<AnyEntity>(*old(self), *old(streams), *streams, t)); }
                dispatch_result(t)
            },
            ObjectType::Ole2Frame => {
                let t = self.read_ole2frame(streams);
                proof { assert(read_ole2frame_outcome(*old(self), *old(streams), *streams, t)); }
                dispatch_result(t)
            },
            ObjectType::Unlisted => self.read_unlisted_type(raw_type, streams),
            _ => Ok(None),
        }
    }
}

/// Whether the handle `h` needs no more reading by `s`: it is read, it
/// has a template already, the map gives no offset for it, or the header
/// of its object cannot be read.
pub open spec fn settled(s: DwgObjectReader, h: u64) -> bool {
    ||| s.read_set().contains(h)
    ||| s.existing_set().contains(h)
    ||| !s.handle_map().dom().contains(h)
    ||| spec_entity_type(s.data(), s.spec_version(), s.handle_map()[h]).2 is Err
}

/// What holds along the loop of [`DwgObjectReader::read`], begun from
/// `start`, at the reader `s` with the templates `ts` read so far: the
/// setting is unchanged, handles are only added to the read ones and only
/// from the map, diagnostics are only added, and every handle queued at
/// the start or referred to by a template read is settled or queued.
pub open spec fn read_progress(start: DwgObjectReader, s: DwgObjectReader,
    ts: Seq<CadTemplate<XDataValue, AnyEntity>>) -> bool {
    &&& s.inv()
    &&& start.same_setting(&s)
    &&& start.read_set().subset_of(s.read_set())
    &&& forall|h: u64| #[trigger] s.read_set().contains(h) && !start.read_set().contains(h)
        ==> start.handle_map().dom().contains(h)
    &&& start.notes().is_prefix_of(s.notes())
    &&& forall|h: u64| #[trigger] start.queue().contains(h) ==> settled(s, h) || s.queue().contains(h)
    &&& forall|i: int, h: u64| 0 <= i < ts.len() && #[trigger] template_handles(ts[i]).contains(h) && h != 0
        ==> settled(s, h) || s.queue().contains(h)
}

/// Taking the first queued handle `h` and settling it keeps the progress
/// of the loop.
proof fn lemma_progress_step(start: DwgObjectReader, s0: DwgObjectReader, s: DwgObjectReader, h: u64,
    ts: Seq<CadTemplate<XDataValue, AnyEntity>>)
    requires
        read_progress(start, s0, ts),
        s0.queue().len() > 0,
        s0.queue()[0] == h,
        s.inv(),
        s0.same_setting(&s),
        s.queue() == s0.queue().drop_first(),
        s0.read_set().subset_of(s.read_set()),
        forall|x: u64| #[trigger] s.read_set().contains(x) && !s0.read_set().contains(x) ==> x == h,
        s.read_set().contains(h) && !s0.read_set().contains(h) ==> s0.handle_map().dom().contains(h),
        s0.notes().is_prefix_of(s.notes()),
        settled(s, h),
    ensures
        read_progress(start, s, ts),
{
    assert forall|x: u64| settled(s0, x) implies settled(s, x) by {}
    assert forall|x: u64| s0.queue().contains(x) && x != h implies s.queue().contains(x) by {
        let k = choose|k: int| 0 <= k < s0.queue().len() && s0.queue()[k] == x;
        assert(k != 0);
        assert(s.queue()[k - 1] == x);
    }
    assert forall|x: u64| #[trigger] s.read_set().contains(x) && !start.read_set().contains(x)
        implies start.handle_map().dom().contains(x) by {
        if !s0.read_set().contains(x) {
            assert(x == h);
        }
    }
    assert(start.notes().is_prefix_of(s.notes())) by {
        assert forall|i: int| 0 <= i < start.notes().len() implies start.notes()[i] == s.notes()[i] by {
            assert(start.notes()[i] == s0.notes()[i]);
        }
    }
}

/// Queuing one more handle keeps the progress of the loop.
proof fn lemma_progress_push(start: DwgObjectReader, s0: DwgObjectReader, s: DwgObjectReader, x: u64,
    ts: Seq<CadTemplate<XDataValue, AnyEntity>>)
    requires
        read_progress(start, s0, ts),
        s0.same_but_queue(&s),
        s.read_set() == s0.read_set(),
        s.queue() == s0.queue().push(x),
    ensures
        read_progress(start, s, ts),
        s.queue().contains(x),
        forall|y: u64| s0.queue().contains(y) ==> s.queue().contains(y),
{
    assert(s.queue()[s0.queue().len() as int] == x);
    assert forall|y: u64| s0.queue().contains(y) implies s.queue().contains(y) by {
        let k = choose|k: int| 0 <= k < s0.queue().len() && s0.queue()[k] == y;
        assert(s.queue()[k] == y);
    }
}

/// Adding diagnostics keeps the progress of the loop.
proof fn lemma_progress_notes(start: DwgObjectReader, s0: DwgObjectReader, s: DwgObjectReader,
    ts: Seq<CadTemplate<XDataValue, AnyEntity>>)
    requires
        read_progress(start, s0, ts),
        s0.keeps_state(&s),
        s0.notes().is_prefix_of(s.notes()),
    ensures
        read_progress(start, s, ts),
{
    assert forall|x: u64| settled(s0, x) implies settled(s, x) by {}
    assert(start.notes().is_prefix_of(s.notes())) by {
        assert forall|i: int| 0 <= i < start.notes().len() implies start.notes()[i] == s.notes()[i] by {
            assert(start.notes()[i] == s0.notes()[i]);
        }
    }
}

/// Marking a handle of the map as read leaves fewer handles of the map to
/// read.
proof fn lemma_mark_shrinks(dom: Set<u64>, rs: Set<u64>, h: u64)
    requires
        dom.finite(),
        dom.contains(h),
        !rs.contains(h),
    ensures
        dom.difference(rs.insert(h)).len() < dom.difference(rs).len(),
{
    assert(dom.difference(rs.insert(h)) =~= dom.difference(rs).remove(h));
    vstd::set::axiom_set_difference_finite(dom, rs);
    vstd::set::axiom_set_remove_len(dom.difference(rs), h);
}

/// One object read by [`DwgObjectReader::read`]: its handle, the type
/// code stored with it, the reader and the streams before and after its
/// dispatch, and what the dispatch gave.
pub struct ObjectStep {
    /// The handle of the object.
    pub handle: u64,
    /// The type code stored with it.
    pub code: i16,
    /// The reader when the object was dispatched.
    pub before: DwgObjectReader,
    /// The reader after.
    pub after: DwgObjectReader,
    /// The streams of the object when it was dispatched.
    pub streams_before: StreamSet,
    /// The streams after.
    pub streams_after: StreamSet,
    /// What reading the object gave.
    pub result: Result<Option<CadTemplate<XDataValue, AnyEntity>>, DxfError>,
}

/// `st` is what reading the object of its handle gives, for a loop begun
/// from `start`: the handle has an offset in the map, the header of its
/// object there reads (see [`spec_entity_type`]) with the stored type
/// code; an empty object gives `Ok(None)`; otherwise its streams are set
/// up as the header says and the result is that of the dispatch of its
/// type (see [`object_read`]) by a reader of the same setting whose
/// current object starts where the header says.
pub open spec fn object_step(start: DwgObjectReader, st: ObjectStep) -> bool {
    &&& start.handle_map().dom().contains(st.handle)
    &&& ({
        let (_, pos, res) = spec_entity_type(start.data(), start.spec_version(), start.handle_map()[st.handle]);
        match res {
            Err(_) => false,
            Ok((code, None)) => st.code as int == code
                && st.result == Ok::<Option<CadTemplate<XDataValue, AnyEntity>>, DxfError>(None),
            Ok((code, Some(m))) => {
                &&& st.code as int == code
                &&& pos == Some(st.before.initial_pos())
                &&& st.before.inv()
                &&& start.same_setting(&st.before)
                &&& streams_match(st.streams_before, m, start.data(), start.spec_version())
                &&& object_read(spec_object_type(code), st.code, st.before, st.after, st.streams_before,
                    st.streams_after, st.result)
            },
        }
    })
}

/// The templates that the objects read in `steps` gave, in order.
pub open spec fn step_templates(steps: Seq<ObjectStep>) -> Seq<CadTemplate<XDataValue, AnyEntity>>
    decreases steps.len(),
{
    if steps.len() == 0 {
        Seq::empty()
    } else {
        let rest = step_templates(steps.drop_last());
        match steps.last().result {
            Ok(Some(t)) => rest.push(t),
            _ => rest,
        }
    }
}

/// Whether one of `steps` read the handle `h`.
pub open spec fn step_reads(steps: Seq<ObjectStep>, h: u64) -> bool {
    exists|k: int| 0 <= k < steps.len() && steps[k].handle == h
}

/// The objects read by the loop of [`DwgObjectReader::read`], begun from
/// `start`, are `steps`, in order, and `ts` the templates they gave: each
/// step is what reading its object gives (see [`object_step`]), no handle
/// is read twice nor was read before, the handles read by `s` are those
/// read before and those of the steps, and `ts` holds the template of
/// each step that gave one (see [`step_templates`]).
pub open spec fn steps_account(start: DwgObjectReader, s: DwgObjectReader, steps: Seq<ObjectStep>,
    ts: Seq<CadTemplate<XDataValue, AnyEntity>>) -> bool {
    &&& forall|k: int| 0 <= k < steps.len() ==> #[trigger] object_step(start, steps[k])
    &&& forall|i: int, j: int| 0 <= i < j < steps.len() ==> #[trigger] steps[i].handle != #[trigger] steps[j].handle
    &&& forall|k: int| 0 <= k < steps.len() ==> !start.read_set().contains(#[trigger] steps[k].handle)
    &&& forall|h: u64| #![trigger s.read_set().contains(h)] #![trigger step_reads(steps, h)]
        s.read_set().contains(h) <==> (start.read_set().contains(h) || step_reads(steps, h))
    &&& ts == step_templates(steps)
}

/// The account of the objects read holds on for a reader that read the
/// same handles.
proof fn lemma_account_same_reads(start: DwgObjectReader, a: DwgObjectReader, b: DwgObjectReader,
    steps: Seq<ObjectStep>, ts: Seq<CadTemplate<XDataValue, AnyEntity>>)
    requires
        steps_account(start, a, steps, ts),
        a.read_set() == b.read_set(),
    ensures
        steps_account(start, b, steps, ts),
{
}

/// Reading one more object, of a handle not read yet, extends the account
/// by its step.
proof fn lemma_account_push(start: DwgObjectReader, a: DwgObjectReader, b: DwgObjectReader,
    steps: Seq<ObjectStep>, ts: Seq<CadTemplate<XDataValue, AnyEntity>>, st: ObjectStep)
    requires
        steps_account(start, a, steps, ts),
        start.read_set().subset_of(a.read_set()),
        !a.read_set().contains(st.handle),
        b.read_set() == a.read_set().insert(st.handle),
        object_step(start, st),
    ensures
        steps_account(start, b, steps.push(st), match st.result { Ok(Some(t)) => ts.push(t), _ => ts }),
{
    let s2 = steps.push(st);
    assert(s2.drop_last() =~= steps);
    assert forall|k: int| 0 <= k < s2.len() implies #[trigger] object_step(start, s2[k]) by {
        if k < steps.len() {
            assert(s2[k] == steps[k]);
        }
    }
    assert forall|k: int| 0 <= k < steps.len() implies a.read_set().contains(#[trigger] steps[k].handle) by {
        assert(step_reads(steps, steps[k].handle));
    }
    assert forall|i: int, j: int| 0 <= i < j < s2.len() implies #[trigger] s2[i].handle != #[trigger] s2[j].handle by {
        if j < steps.len() {
            assert(s2[i] == steps[i] && s2[j] == steps[j]);
        } else {
            assert(s2[i] == steps[i]);
            assert(a.read_set().contains(steps[i].handle));
        }
    }
    assert forall|k: int| 0 <= k < s2.len() implies !start.read_set().contains(#[trigger] s2[k].handle) by {
        if k < steps.len() {
            assert(s2[k] == steps[k]);
        }
    }
    assert forall|h: u64| b.read_set().contains(h) <==> (start.read_set().contains(h) || step_reads(s2, h)) by {
        if step_reads(steps, h) {
            let k = choose|k: int| 0 <= k < steps.len() && steps[k].handle == h;
            assert(s2[k] == steps[k]);
        }
        if h == st.handle {
            assert(s2[steps.len() as int] == st);
        }
        if step_reads(s2, h) && h != st.handle {
            let k = choose|k: int| 0 <= k < s2.len() && s2[k].handle == h;
            assert(k < steps.len());
            assert(s2[k] == steps[k]);
            assert(step_reads(steps, h));
        }
    }
}

/// What the loop of [`DwgObjectReader::read`] does, from the reader
/// `start` to `end`, with the result `r`: the setting is unchanged; the
/// handles read are those read before and handles of the map; diagnostics
/// are only added; a reader that goes on after failures gives `Ok`; on
/// `Ok`, the queue is empty, every handle queued at the start and every
/// handle that a template given refers to is settled (see [`settled`]),
/// and the templates given are those of the objects read, one step per
/// handle read, in order (see [`steps_account`]).
pub open spec fn objects_read(start: DwgObjectReader, end: DwgObjectReader,
    r: Result<Vec<CadTemplate<XDataValue, AnyEntity>>, DxfError>) -> bool {
    &&& end.inv()
    &&& start.same_setting(&end)
    &&& start.read_set().subset_of(end.read_set())
    &&& forall|h: u64| #[trigger] end.read_set().contains(h) && !start.read_set().contains(h)
        ==> start.handle_map().dom().contains(h)
    &&& start.notes().is_prefix_of(end.notes())
    &&& start.spec_failsafe() ==> r is Ok
    &&& r is Ok ==> end.queue().len() == 0
    &&& r is Ok ==> forall|h: u64| #[trigger] start.queue().contains(h) ==> settled(end, h)
    &&& r matches Ok(ts) ==> forall|i: int, h: u64| 0 <= i < ts.len()
        && #[trigger] template_handles(ts[i]).contains(h) && h != 0 ==> settled(end, h)
    &&& r matches Ok(ts) ==> exists|steps: Seq<ObjectStep>| #[trigger] steps_account(start, end, steps, ts@)
}

impl DwgObjectReader {
    /// Read every object that the queue leads to: take each queued handle
    /// in turn, skip it when it is read already, has a template already or
    /// has no offset in the map; else read its header, mark it read,
    /// dispatch it to the reader of its type, and queue the handles its
    /// template refers to that are not read yet. A failure is returned at
    /// once, or, when the reader goes on after failures, recorded as an
    /// error; an object of a type with no reader is recorded as a warning.
    pub fn read(&mut self) -> (r: Result<Vec<CadTemplate<XDataValue, AnyEntity>>, DxfError>)
        requires
            old(self).inv(),
        ensures
            objects_read(*old(self), *final(self), r),
    {
        let mut templates: Vec<CadTemplate<XDataValue, AnyEntity>> = Vec::new();
        let failsafe = self.is_failsafe();
        let ghost mut steps: Seq<ObjectStep> = Seq::empty();
        proof {
            assert(steps_account(*old(self), *self, steps, templates@)) by {
                assert(templates@ =~= step_templates(steps));
            }
            old(self).lemma_map_finite();
            assert(old(self).notes().is_prefix_of(old(self).notes())) by {
                assert(old(self).notes().take(old(self).notes().len() as int) =~= old(self).notes());
            }
        }
        while self.pending() > 0
            invariant
                read_progress(*old(self), *self, templates@),
                steps_account(*old(self), *self, steps, templates@),
                failsafe == old(self).spec_failsafe(),
                old(self).handle_map().dom().finite(),
            decreases old(self).handle_map().dom().difference(self.read_set()).len(), self.queue().len(),
        {
            let ghost s0 = *self;
            let h = match self.pop_handle() {
                Some(h) => h,
                None => 0,
            };
            if self.is_done(h) {
                proof {
                    lemma_progress_step(*old(self), s0, *self, h, templates@);
                    lemma_account_same_reads(*old(self), s0, *self, steps, templates@);
                }
                continue;
            }
            let offset = match self.offset_of(h) {
                Some(o) => o,
                None => {
                    proof {
                        lemma_progress_step(*old(self), s0, *self, h, templates@);
                        lemma_account_same_reads(*old(self), s0, *self, steps, templates@);
                    }
                    continue;
                },
            };
            let got = self.get_entity_type(offset);
            match got {
                Err(e) => {
                    if !failsafe {
                        return Err(e);
                    }
                    proof { lemma_progress_step(*old(self), s0, *self, h, templates@); }
                    let ghost s1 = *self;
                    self.notify("Failed to read the type of an object", NotificationType::Error);
                    proof {
                        lemma_progress_notes(*old(self), s1, *self, templates@);
                        lemma_account_same_reads(*old(self), s0, *self, steps, templates@);
                    }
                },
                Ok((code, streams)) => {
                    let ghost s1 = *self;
                    self.mark_read(h);
                    proof {
                        lemma_mark_shrinks(old(self).handle_map().dom(), s1.read_set(), h);
                        lemma_progress_step(*old(self), s0, *self, h, templates@);
                    }
                    let ghost s2 = *self;
                    let ot = object_type_of(code);
                    let ghost no_streams = streams is None;
                    let ghost mut sb: StreamSet = vstd::pervasive::arbitrary();
                    let ghost mut sa: StreamSet = vstd::pervasive::arbitrary();
                    let res = match streams {
                        None => Ok(None),
                        Some(s) => {
                            let mut s = s;
                            proof { sb = s; }
                            let got = self.read_object(ot, code, &mut s);
                            proof { sa = s; }
                            got
                        },
                    };
                    let ghost st = ObjectStep { handle: h, code, before: s2, after: *self, streams_before: sb,
                        streams_after: sa, result: res };
                    proof {
                        if no_streams {
                            assert(s2.notes().take(s2.notes().len() as int) =~= s2.notes());
                        }
                        lemma_progress_notes(*old(self), s2, *self, templates@);
                        assert(object_step(*old(self), st));
                        lemma_account_push(*old(self), s1, *self, steps, templates@, st);
                        steps = steps.push(st);
                    }
                    match res {
                        Ok(Some(t)) => {
                            let hs = handles_of(&t);
                            let ghost s3 = *self;
                            let mut k: usize = 0;
                            while k < hs.len()
                                invariant
                                    k <= hs@.len(),
                                    hs@ == template_handles(t),
                                    read_progress(*old(self), *self, templates@),
                                    steps_account(*old(self), *self, steps, templates@.push(t)),
                                    self.read_set() == s3.read_set(),
                                    forall|j: int| 0 <= j < k && hs@[j] != 0
                                        ==> settled(*self, #[trigger] hs@[j]) || self.queue().contains(hs@[j]),
                                decreases hs@.len() - k,
                            {
                                let x = hs[k];
                                if x != 0 && !self.is_done(x) {
                                    let ghost q0 = *self;
                                    self.enqueue(x);
                                    proof {
                                        lemma_account_same_reads(*old(self), q0, *self, steps, templates@.push(t));
                                        lemma_progress_push(*old(self), q0, *self, x, templates@);
                                        assert forall|x2: u64| settled(q0, x2) implies settled(*self, x2) by {}
                                    }
                                }
                                k = k + 1;
                            }
                            proof {
                                assert forall|x: u64| #[trigger] template_handles(t).contains(x) && x != 0
                                    implies settled(*self, x) || self.queue().contains(x) by {
                                    let j = choose|j: int| 0 <= j < hs@.len() && hs@[j] == x;
                                    assert(hs@[j] != 0);
                                }
                            }
                            templates.push(t);
                            proof {
                                assert forall|i: int, x: u64| 0 <= i < templates@.len()
                                    && #[trigger] template_handles(templates@[i]).contains(x) && x != 0
                                    implies settled(*self, x) || self.queue().contains(x) by {
                                    if i < templates@.len() - 1 {
                                        assert(templates@[i] == templates@.drop_last()[i]);
                                    }
                                }
                            }
                        },
                        Ok(None) => {
                            let ghost s3 = *self;
                            self.notify("Object type not implemented", NotificationType::Warning);
                            proof {
                                lemma_progress_notes(*old(self), s3, *self, templates@);
                                lemma_account_same_reads(*old(self), s3, *self, steps, templates@);
                            }
                        },
                        Err(e) => {
                            if !failsafe {
                                return Err(e);
                            }
                            let ghost s3 = *self;
                            self.notify("Failed to read an object", NotificationType::Error);
                            proof {
                                lemma_progress_notes(*old(self), s3, *self, templates@);
                                lemma_account_same_reads(*old(self), s3, *self, steps, templates@);
                            }
                        },
                    }
                },
            }
        }
        proof {
            assert(steps_account(*old(self), *self, steps, templates@));
        }
        Ok(templates)
    }
}

} // verus!
