//! Reader of hatches: an optional gradient, the boundary paths (polylines
//! or lists of line, arc, elliptic arc and spline edges), the pattern, the
//! seed points and, per path, the boundary object handles.  Values are
//! kept as stored: doubles as their IEEE-754 bit patterns.

use vstd::prelude::*;
use crate::bit_model::one_bits;
use crate::color::DwgColor;
use crate::error::DxfError;
use crate::header_reader::{field_short, field_short_of};
use crate::object_common::{XDataValue, spec_handle_list, read_handle_list};
use crate::object_reader::{DwgObjectReader, StreamsModel, FieldKind, FieldModel, FieldValue, EntityCommon,
    CommonModel, spec_field, spec_fields, spec_common_entity, spec_repeated, streams_of, model_of, common_model,
    fields_model, rows_model, field_count, on_object, read_stream_field, read_stream_fields, read_repeated,
    lemma_fields_len, lemma_repeated_shape};
use crate::object_records::{version_at_least, field_bool, field_bool_of, field_count_of};
use crate::table_entries::{field_double, field_text, field_double_of, field_text_of};
use crate::text_entities::{field_point, field_point_of};
use crate::stream_set::StreamSet;
use crate::stream_values::spec_bit_long_or_zero;
use crate::templates::{CadTemplate, CadEntityTemplateData, CadHatchTemplateData};
use crate::version::DxfVersion;

verus! {

/// One color of a gradient: its position and color.
#[derive(Debug, Clone, Copy)]
pub struct GradientColor {
    pub value: u64,
    pub color: DwgColor,
}

/// The gradient of a hatch (all zero and not enabled for a hatch without
/// one).
pub struct HatchGradient {
    pub enabled: bool,
    pub reserved: i32,
    pub angle: u64,
    pub shift: u64,
    pub is_single_color: bool,
    pub color_tint: u64,
    pub colors: Vec<GradientColor>,
    pub name: String,
}

/// The content of a [`HatchGradient`].
pub struct GradientModel {
    pub enabled: bool,
    pub reserved: i32,
    pub angle: u64,
    pub shift: u64,
    pub is_single_color: bool,
    pub color_tint: u64,
    pub colors: Seq<GradientColor>,
    pub name: Seq<char>,
}

impl View for HatchGradient {
    type V = GradientModel;

    open spec fn view(&self) -> GradientModel {
        GradientModel {
            enabled: self.enabled,
            reserved: self.reserved,
            angle: self.angle,
            shift: self.shift,
            is_single_color: self.is_single_color,
            color_tint: self.color_tint,
            colors: self.colors@,
            name: self.name@,
        }
    }
}

/// One edge of a boundary path.  Polyline vertices hold their bulge as
/// their third value; spline control points their weight.
pub enum BoundaryEdge {
    Polyline { vertices: Vec<(u64, u64, u64)>, is_closed: bool },
    Line { start: (u64, u64), end: (u64, u64) },
    CircularArc { center: (u64, u64), radius: u64, start_angle: u64, end_angle: u64, counter_clockwise: bool },
    EllipticArc {
        center: (u64, u64),
        major_axis_endpoint: (u64, u64),
        minor_axis_ratio: u64,
        start_angle: u64,
        end_angle: u64,
        counter_clockwise: bool,
    },
    Spline {
        degree: i32,
        rational: bool,
        periodic: bool,
        knots: Vec<u64>,
        control_points: Vec<(u64, u64, u64)>,
        fit_points: Vec<(u64, u64)>,
        start_tangent: (u64, u64),
        end_tangent: (u64, u64),
    },
}

/// The content of a [`BoundaryEdge`].
pub enum EdgeModel {
    Polyline { vertices: Seq<(u64, u64, u64)>, is_closed: bool },
    Line { start: (u64, u64), end: (u64, u64) },
    CircularArc { center: (u64, u64), radius: u64, start_angle: u64, end_angle: u64, counter_clockwise: bool },
    EllipticArc {
        center: (u64, u64),
        major_axis_endpoint: (u64, u64),
        minor_axis_ratio: u64,
        start_angle: u64,
        end_angle: u64,
        counter_clockwise: bool,
    },
    Spline {
        degree: i32,
        rational: bool,
        periodic: bool,
        knots: Seq<u64>,
        control_points: Seq<(u64, u64, u64)>,
        fit_points: Seq<(u64, u64)>,
        start_tangent: (u64, u64),
        end_tangent: (u64, u64),
    },
}

impl View for BoundaryEdge {
    type V = EdgeModel;

    open spec fn view(&self) -> EdgeModel {
        match self {
            BoundaryEdge::Polyline { vertices, is_closed } => EdgeModel::Polyline {
                vertices: vertices@,
                is_closed: *is_closed,
            },
            BoundaryEdge::Line { start, end } => EdgeModel::Line { start: *start, end: *end },
            BoundaryEdge::CircularArc { center, radius, start_angle, end_angle, counter_clockwise } =>
                EdgeModel::CircularArc {
                    center: *center,
                    radius: *radius,
                    start_angle: *start_angle,
                    end_angle: *end_angle,
                    counter_clockwise: *counter_clockwise,
                },
            BoundaryEdge::EllipticArc { center, major_axis_endpoint, minor_axis_ratio, start_angle, end_angle,
                counter_clockwise } => EdgeModel::EllipticArc {
                    center: *center,
                    major_axis_endpoint: *major_axis_endpoint,
                    minor_axis_ratio: *minor_axis_ratio,
                    start_angle: *start_angle,
                    end_angle: *end_angle,
                    counter_clockwise: *counter_clockwise,
                },
            BoundaryEdge::Spline { degree, rational, periodic, knots, control_points, fit_points, start_tangent,
                end_tangent } => EdgeModel::Spline {
                    degree: *degree,
                    rational: *rational,
                    periodic: *periodic,
                    knots: knots@,
                    control_points: control_points@,
                    fit_points: fit_points@,
                    start_tangent: *start_tangent,
                    end_tangent: *end_tangent,
                },
        }
    }
}

/// The contents of a list of edges.
pub open spec fn edges_model(es: Seq<BoundaryEdge>) -> Seq<EdgeModel> {
    es.map_values(|e: BoundaryEdge| e@)
}

/// A boundary path: its flags and edges.
pub struct BoundaryPath {
    pub flags: u32,
    pub edges: Vec<BoundaryEdge>,
}

/// The content of a [`BoundaryPath`].
pub struct PathModel {
    pub flags: u32,
    pub edges: Seq<EdgeModel>,
}

impl View for BoundaryPath {
    type V = PathModel;

    open spec fn view(&self) -> PathModel {
        PathModel { flags: self.flags, edges: edges_model(self.edges@) }
    }
}

/// The contents of a list of paths.
pub open spec fn paths_model(ps: Seq<BoundaryPath>) -> Seq<PathModel> {
    ps.map_values(|p: BoundaryPath| p@)
}

/// One line of a hatch pattern: its angle, base point, offset and dash
/// lengths.
pub struct HatchPatternLine {
    pub angle: u64,
    pub base_point: (u64, u64),
    pub offset: (u64, u64),
    pub dash_lengths: Vec<u64>,
}

/// The content of a [`HatchPatternLine`].
pub struct PatternLineModel {
    pub angle: u64,
    pub base_point: (u64, u64),
    pub offset: (u64, u64),
    pub dash_lengths: Seq<u64>,
}

impl View for HatchPatternLine {
    type V = PatternLineModel;

    open spec fn view(&self) -> PatternLineModel {
        PatternLineModel {
            angle: self.angle,
            base_point: self.base_point,
            offset: self.offset,
            dash_lengths: self.dash_lengths@,
        }
    }
}

/// The contents of a list of pattern lines.
pub open spec fn lines_model(ls: Seq<HatchPatternLine>) -> Seq<PatternLineModel> {
    ls.map_values(|l: HatchPatternLine| l@)
}

/// How the islands of a hatch are filled.
#[derive(Debug, Clone, Copy, PartialEq, Eq, Structural)]
pub enum HatchStyleType {
    Normal,
    Outer,
    Ignore,
}

/// Where the pattern of a hatch comes from.
#[derive(Debug, Clone, Copy, PartialEq, Eq, Structural)]
pub enum HatchPatternType {
    UserDefined,
    Predefined,
    Custom,
}

/// The style with the code `n`: 1 outer, 2 ignore, any other normal.
pub open spec fn hatch_style_of(n: i16) -> HatchStyleType {
    if n == 1 { HatchStyleType::Outer } else if n == 2 { HatchStyleType::Ignore } else { HatchStyleType::Normal }
}

/// The pattern type with the code `n`: 0 user defined, 2 custom, any
/// other predefined.
pub open spec fn pattern_type_of(n: i16) -> HatchPatternType {
    if n == 0 {
        HatchPatternType::UserDefined
    } else if n == 2 {
        HatchPatternType::Custom
    } else {
        HatchPatternType::Predefined
    }
}

/// A hatch.
pub struct HatchEntity {
    pub common: EntityCommon,
    pub elevation: u64,
    pub normal: (u64, u64, u64),
    pub pattern_name: String,
    pub pattern_lines: Vec<HatchPatternLine>,
    pub is_solid: bool,
    pub is_associative: bool,
    pub pattern_type: HatchPatternType,
    /// The pattern angle (0.0 for a solid fill).
    pub pattern_angle: u64,
    /// The pattern scale (1.0 for a solid fill).
    pub pattern_scale: u64,
    pub is_double: bool,
    pub style: HatchStyleType,
    pub paths: Vec<BoundaryPath>,
    pub seed_points: Vec<(u64, u64)>,
    /// The pixel size (0.0 when not stored).
    pub pixel_size: u64,
    pub gradient: HatchGradient,
}

/// The long a field holds (0 for a field of another kind).
pub open spec fn field_long(f: FieldModel) -> i32 {
    match f {
        FieldModel::Long(n) => n,
        _ => 0,
    }
}

/// The color a field holds (by layer for a field of another kind).
pub open spec fn field_color(f: FieldModel) -> DwgColor {
    match f {
        FieldModel::Color(c) => c,
        _ => DwgColor::ByLayer,
    }
}

/// The count a BitShort field holds, taken as a `usize` (0 for a field
/// of another kind).
pub open spec fn short_count(f: FieldModel) -> nat {
    match f {
        FieldModel::Short(n) => (n as usize) as nat,
        _ => 0,
    }
}

/// The doubles held by rows of one double each.
pub open spec fn row_doubles(rows: Seq<Seq<FieldModel>>) -> Seq<u64> {
    rows.map_values(|r: Seq<FieldModel>| field_double(r[0]))
}

/// The pairs held by rows of two doubles each.
pub open spec fn row_pairs(rows: Seq<Seq<FieldModel>>) -> Seq<(u64, u64)> {
    rows.map_values(|r: Seq<FieldModel>| (field_double(r[0]), field_double(r[1])))
}

/// The triples held by rows of two doubles each and, when `third`, a
/// third double (else `d`).
pub open spec fn row_triples(rows: Seq<Seq<FieldModel>>, third: bool, d: u64) -> Seq<(u64, u64, u64)> {
    rows.map_values(|r: Seq<FieldModel>| (field_double(r[0]), field_double(r[1]),
        if third { field_double(r[2]) } else { d }))
}

/// The gradient colors held by rows of a double and a color each.
pub open spec fn row_colors(rows: Seq<Seq<FieldModel>>) -> Seq<GradientColor> {
    rows.map_values(|r: Seq<FieldModel>| GradientColor { value: field_double(r[0]), color: field_color(r[1]) })
}

/// The layout of a row of two raw doubles and, when `third`, a
/// BitDouble.
pub open spec fn point_row(third: bool) -> Seq<FieldKind> {
    if third {
        seq![FieldKind::RawDouble, FieldKind::RawDouble, FieldKind::BitDouble]
    } else {
        seq![FieldKind::RawDouble, FieldKind::RawDouble]
    }
}

/// The gradient of a hatch without one.
pub open spec fn no_gradient() -> GradientModel {
    GradientModel {
        enabled: false,
        reserved: 0,
        angle: 0,
        shift: 0,
        is_single_color: false,
        color_tint: 0,
        colors: Seq::empty(),
        name: Seq::empty(),
    }
}

/// The fields of a gradient: reserved, angle, shift, single-color flag,
/// tint and color count.
pub open spec fn gradient_layout() -> Seq<FieldKind> {
    seq![FieldKind::BitLong, FieldKind::BitDouble, FieldKind::BitDouble, FieldKind::BitLong,
        FieldKind::BitDouble, FieldKind::BitLong]
}

/// The gradient of a hatch read from `m` (data of `len` bytes, version
/// `v`): from R2004 on a BitLong, nonzero for a gradient fill; a gradient
/// then has the fields of [`gradient_layout`], its colors (a BitDouble
/// and a color each) and its name.
#[verifier::opaque]
pub open spec fn spec_gradient(m: StreamsModel, len: nat, v: DxfVersion, reference: u64)
    -> Result<(GradientModel, StreamsModel), DxfError>
{
    if !version_at_least(v, DxfVersion::AC1018) {
        Ok((no_gradient(), m))
    } else {
        match spec_field(m, len, v, reference, FieldKind::BitLong) {
            Err(e) => Err(e),
            Ok((f, m1)) => if field_long(f) == 0 {
                Ok((no_gradient(), m1))
            } else {
                match spec_fields(m1, len, v, reference, gradient_layout()) {
                    Err(e) => Err(e),
                    Ok((gs, m2)) => match spec_repeated(m2, len, v, reference,
                        seq![FieldKind::BitDouble, FieldKind::CmColor], field_count(gs[5])) {
                        Err(e) => Err(e),
                        Ok((rows, m3)) => match spec_field(m3, len, v, reference, FieldKind::Text) {
                            Err(e) => Err(e),
                            Ok((name, m4)) => Ok((GradientModel {
                                enabled: true,
                                reserved: field_long(gs[0]),
                                angle: field_double(gs[1]),
                                shift: field_double(gs[2]),
                                is_single_color: field_long(gs[3]) != 0,
                                color_tint: field_double(gs[4]),
                                colors: row_colors(rows),
                                name: field_text(name),
                            }, m4)),
                        },
                    },
                }
            },
        }
    }
}

/// The fields a spline edge starts with: degree, rational, periodic, knot
/// count and control point count.
pub open spec fn spline_edge_layout() -> Seq<FieldKind> {
    seq![FieldKind::BitLong, FieldKind::Bit, FieldKind::Bit, FieldKind::BitLong, FieldKind::BitLong]
}

/// The fit data of a spline edge read from `m`: from R2010 on a count,
/// that many points (two raw doubles each) and, when there are any, the
/// start and end tangents (two raw doubles each; else zero).
#[verifier::opaque]
pub open spec fn spec_spline_fit(m: StreamsModel, len: nat, v: DxfVersion, reference: u64)
    -> Result<((Seq<(u64, u64)>, (u64, u64), (u64, u64)), StreamsModel), DxfError>
{
    let r2010 = version_at_least(v, DxfVersion::AC1024);
    match (if r2010 { spec_field(m, len, v, reference, FieldKind::BitLong) } else {
        Ok((FieldModel::Long(0), m)) }) {
        Err(e) => Err(e),
        Ok((nf, m1)) => match spec_repeated(m1, len, v, reference, point_row(false), field_count(nf)) {
            Err(e) => Err(e),
            Ok((fit, m2)) => if r2010 && field_count(nf) > 0 {
                match spec_fields(m2, len, v, reference, seq![FieldKind::RawDouble, FieldKind::RawDouble,
                    FieldKind::RawDouble, FieldKind::RawDouble]) {
                    Err(e) => Err(e),
                    Ok((ts, m3)) => Ok(((row_pairs(fit), (field_double(ts[0]), field_double(ts[1])),
                        (field_double(ts[2]), field_double(ts[3]))), m3)),
                }
            } else {
                Ok(((row_pairs(fit), (0u64, 0u64), (0u64, 0u64)), m2))
            },
        },
    }
}

/// A spline edge read from `m`: the fields of [`spline_edge_layout`],
/// the knots (a BitDouble each), the control points (two raw doubles and,
/// when rational, a BitDouble weight; else 1.0) and the fit data (see
/// [`spec_spline_fit`]).
#[verifier::opaque]
pub open spec fn spec_spline_edge(m: StreamsModel, len: nat, v: DxfVersion, reference: u64)
    -> Result<(EdgeModel, StreamsModel), DxfError>
{
    match spec_fields(m, len, v, reference, spline_edge_layout()) {
        Err(e) => Err(e),
        Ok((sh, m1)) => match spec_repeated(m1, len, v, reference, seq![FieldKind::BitDouble],
            field_count(sh[3])) {
            Err(e) => Err(e),
            Ok((knots, m2)) => {
                let rational = field_bool(sh[1]);
                match spec_repeated(m2, len, v, reference, point_row(rational), field_count(sh[4])) {
                    Err(e) => Err(e),
                    Ok((ctrl, m3)) => match spec_spline_fit(m3, len, v, reference) {
                        Err(e) => Err(e),
                        Ok(((fit, st, et), m4)) => Ok((EdgeModel::Spline {
                            degree: field_long(sh[0]),
                            rational,
                            periodic: field_bool(sh[2]),
                            knots: row_doubles(knots),
                            control_points: row_triples(ctrl, rational, one_bits()),
                            fit_points: fit,
                            start_tangent: st,
                            end_tangent: et,
                        }, m4)),
                    },
                }
            },
        },
    }
}

/// One edge read from `m`: its type byte, then for 1 a line (two points
/// of two raw doubles), for 2 a circular arc (center, radius, angles and
/// direction), for 3 an elliptic arc (center, major axis end, ratio,
/// angles and direction), for 4 a spline (see [`spec_spline_edge`]); any
/// other type has no data and gives no edge.
#[verifier::opaque]
pub open spec fn spec_edge(m: StreamsModel, len: nat, v: DxfVersion, reference: u64)
    -> Result<(Option<EdgeModel>, StreamsModel), DxfError>
{
    match spec_field(m, len, v, reference, FieldKind::RawChar) {
        Err(e) => Err(e),
        Ok((t, m1)) => {
            let t = match t { FieldModel::Char(b) => b, _ => 0u8 };
            if t == 1 {
                match spec_fields(m1, len, v, reference, seq![FieldKind::RawDouble, FieldKind::RawDouble,
                    FieldKind::RawDouble, FieldKind::RawDouble]) {
                    Err(e) => Err(e),
                    Ok((fs, m2)) => Ok((Some(EdgeModel::Line { start: (field_double(fs[0]), field_double(fs[1])),
                        end: (field_double(fs[2]), field_double(fs[3])) }), m2)),
                }
            } else if t == 2 {
                match spec_fields(m1, len, v, reference, seq![FieldKind::RawDouble, FieldKind::RawDouble,
                    FieldKind::BitDouble, FieldKind::BitDouble, FieldKind::BitDouble, FieldKind::Bit]) {
                    Err(e) => Err(e),
                    Ok((fs, m2)) => Ok((Some(EdgeModel::CircularArc {
                        center: (field_double(fs[0]), field_double(fs[1])),
                        radius: field_double(fs[2]),
                        start_angle: field_double(fs[3]),
                        end_angle: field_double(fs[4]),
                        counter_clockwise: field_bool(fs[5]),
                    }), m2)),
                }
            } else if t == 3 {
                match spec_fields(m1, len, v, reference, seq![FieldKind::RawDouble, FieldKind::RawDouble,
                    FieldKind::RawDouble, FieldKind::RawDouble, FieldKind::BitDouble, FieldKind::BitDouble,
                    FieldKind::BitDouble, FieldKind::Bit]) {
                    Err(e) => Err(e),
                    Ok((fs, m2)) => Ok((Some(EdgeModel::EllipticArc {
                        center: (field_double(fs[0]), field_double(fs[1])),
                        major_axis_endpoint: (field_double(fs[2]), field_double(fs[3])),
                        minor_axis_ratio: field_double(fs[4]),
                        start_angle: field_double(fs[5]),
                        end_angle: field_double(fs[6]),
                        counter_clockwise: field_bool(fs[7]),
                    }), m2)),
                }
            } else if t == 4 {
                match spec_spline_edge(m1, len, v, reference) {
                    Err(e) => Err(e),
                    Ok((e, m2)) => Ok((Some(e), m2)),
                }
            } else {
                Ok((None, m1))
            }
        },
    }
}

/// `n` edges read in order (see [`spec_edge`]): the edges of known type.
pub open spec fn spec_edges(m: StreamsModel, len: nat, v: DxfVersion, reference: u64, n: nat)
    -> Result<(Seq<EdgeModel>, StreamsModel), DxfError>
    decreases n,
{
    if n == 0 {
        Ok((Seq::empty(), m))
    } else {
        match spec_edge(m, len, v, reference) {
            Err(e) => Err(e),
            Ok((e, m1)) => match spec_edges(m1, len, v, reference, (n - 1) as nat) {
                Err(e2) => Err(e2),
                Ok((es, m2)) => Ok((match e { Some(x) => seq![x] + es, None => es }, m2)),
            },
        }
    }
}

/// One boundary path read from `m`: its flags (a BitLong taken as a
/// `u32`); with bit 1 set, a polyline (bulge bit, closed bit (not kept),
/// vertex count, then the vertices: two raw doubles and, with bulges, a
/// BitDouble; the edge is closed); else an edge count and the edges (see
/// [`spec_edges`]); then the count of its boundary objects (not kept).
#[verifier::opaque]
pub open spec fn spec_path(m: StreamsModel, len: nat, v: DxfVersion, reference: u64)
    -> Result<(PathModel, StreamsModel), DxfError>
{
    match spec_field(m, len, v, reference, FieldKind::BitLong) {
        Err(e) => Err(e),
        Ok((f, m1)) => {
            let flags = field_long(f) as u32;
            let edges = if flags & 2u32 != 0u32 {
                match spec_fields(m1, len, v, reference, seq![FieldKind::Bit, FieldKind::Bit, FieldKind::BitLong]) {
                    Err(e) => Err(e),
                    Ok((ph, m2)) => {
                        let bulge = field_bool(ph[0]);
                        match spec_repeated(m2, len, v, reference, point_row(bulge), field_count(ph[2])) {
                            Err(e) => Err(e),
                            Ok((rows, m3)) => Ok((seq![EdgeModel::Polyline {
                                vertices: row_triples(rows, bulge, 0), is_closed: true }], m3)),
                        }
                    },
                }
            } else {
                match spec_field(m1, len, v, reference, FieldKind::BitLong) {
                    Err(e) => Err(e),
                    Ok((ne, m2)) => spec_edges(m2, len, v, reference, field_count(ne)),
                }
            };
            match edges {
                Err(e) => Err(e),
                Ok((es, m4)) => match spec_field(m4, len, v, reference, FieldKind::BitLong) {
                    Err(e) => Err(e),
                    Ok((_, m5)) => Ok((PathModel { flags, edges: es }, m5)),
                },
            }
        },
    }
}

/// `n` boundary paths read in order (see [`spec_path`]).
pub open spec fn spec_paths(m: StreamsModel, len: nat, v: DxfVersion, reference: u64, n: nat)
    -> Result<(Seq<PathModel>, StreamsModel), DxfError>
    decreases n,
{
    if n == 0 {
        Ok((Seq::empty(), m))
    } else {
        match spec_path(m, len, v, reference) {
            Err(e) => Err(e),
            Ok((p, m1)) => match spec_paths(m1, len, v, reference, (n - 1) as nat) {
                Err(e) => Err(e),
                Ok((ps, m2)) => Ok((seq![p] + ps, m2)),
            },
        }
    }
}

/// One pattern line read from `m`: its angle, base point and offset (two
/// raw doubles each), a dash count (a BitShort taken as a `usize`) and
/// the dash lengths.
#[verifier::opaque]
pub open spec fn spec_pattern_line(m: StreamsModel, len: nat, v: DxfVersion, reference: u64)
    -> Result<(PatternLineModel, StreamsModel), DxfError>
{
    match spec_fields(m, len, v, reference, seq![FieldKind::BitDouble, FieldKind::RawDouble, FieldKind::RawDouble,
        FieldKind::RawDouble, FieldKind::RawDouble, FieldKind::BitShort]) {
        Err(e) => Err(e),
        Ok((fs, m1)) => match spec_repeated(m1, len, v, reference, seq![FieldKind::BitDouble], short_count(fs[5])) {
            Err(e) => Err(e),
            Ok((ds, m2)) => Ok((PatternLineModel {
                angle: field_double(fs[0]),
                base_point: (field_double(fs[1]), field_double(fs[2])),
                offset: (field_double(fs[3]), field_double(fs[4])),
                dash_lengths: row_doubles(ds),
            }, m2)),
        },
    }
}

/// `n` pattern lines read in order (see [`spec_pattern_line`]).
pub open spec fn spec_pattern_lines(m: StreamsModel, len: nat, v: DxfVersion, reference: u64, n: nat)
    -> Result<(Seq<PatternLineModel>, StreamsModel), DxfError>
    decreases n,
{
    if n == 0 {
        Ok((Seq::empty(), m))
    } else {
        match spec_pattern_line(m, len, v, reference) {
            Err(e) => Err(e),
            Ok((l, m1)) => match spec_pattern_lines(m1, len, v, reference, (n - 1) as nat) {
                Err(e) => Err(e),
                Ok((ls, m2)) => Ok((seq![l] + ls, m2)),
            },
        }
    }
}

/// The pattern of a hatch read from `m`: its style and type codes; unless
/// the hatch is `solid`, its angle, scale, double flag, line count (a
/// BitShort taken as a `usize`) and lines (see [`spec_pattern_line`]);
/// for a solid hatch, angle 0.0, scale 1.0, not double and no lines.
/// Gives the style code, type code, angle, scale, double flag and lines.
#[verifier::opaque]
pub open spec fn spec_pattern(m: StreamsModel, len: nat, v: DxfVersion, reference: u64, solid: bool)
    -> Result<((i16, i16, u64, u64, bool, Seq<PatternLineModel>), StreamsModel), DxfError>
{
    match spec_fields(m, len, v, reference, seq![FieldKind::BitShort, FieldKind::BitShort]) {
        Err(e) => Err(e),
        Ok((st, m1)) => if solid {
            Ok(((field_short(st[0]), field_short(st[1]), 0u64, one_bits(), false, Seq::empty()), m1))
        } else {
            match spec_fields(m1, len, v, reference, seq![FieldKind::BitDouble, FieldKind::BitDouble, FieldKind::Bit,
                FieldKind::BitShort]) {
                Err(e) => Err(e),
                Ok((ps, m2)) => match spec_pattern_lines(m2, len, v, reference, short_count(ps[3])) {
                    Err(e) => Err(e),
                    Ok((ls, m3)) => Ok(((field_short(st[0]), field_short(st[1]), field_double(ps[0]),
                        field_double(ps[1]), field_bool(ps[2]), ls), m3)),
                },
            }
        },
    }
}

/// The pixel size and seed points of a hatch read from `m`: a bit, set
/// when a pixel size (a BitDouble; else 0.0) follows, a seed count and
/// the seeds (two raw doubles each).
#[verifier::opaque]
pub open spec fn spec_seeds(m: StreamsModel, len: nat, v: DxfVersion, reference: u64)
    -> Result<((u64, Seq<(u64, u64)>), StreamsModel), DxfError>
{
    match spec_field(m, len, v, reference, FieldKind::Bit) {
        Err(e) => Err(e),
        Ok((b, m1)) => match (if field_bool(b) { spec_field(m1, len, v, reference, FieldKind::BitDouble) } else {
            Ok((FieldModel::Double(0), m1)) }) {
            Err(e) => Err(e),
            Ok((px, m2)) => match spec_field(m2, len, v, reference, FieldKind::BitLong) {
                Err(e) => Err(e),
                Ok((ns, m3)) => match spec_repeated(m3, len, v, reference, point_row(false), field_count(ns)) {
                    Err(e) => Err(e),
                    Ok((seeds, m4)) => Ok(((field_double(px), row_pairs(seeds)), m4)),
                },
            },
        },
    }
}

/// The boundary object handles of one path read from `m`: a count from
/// the object data (a BitLong taken as a `usize`; 0 when it cannot be
/// read, see [`spec_bit_long_or_zero`]), then that many absolute handles
/// from the handle stream.
pub open spec fn spec_boundary_handles(m: StreamsModel, len: nat) -> Result<(Seq<u64>, StreamsModel), DxfError> {
    let (n, c) = spec_bit_long_or_zero(m.object);
    let m1 = on_object(m, len, c);
    match spec_handle_list(m1.handles, m1.handles_pos, len, 0, ((n as i32) as usize) as nat) {
        Err(e) => Err(e),
        Ok((hs, ch, hp)) => Ok((hs, StreamsModel { handles: ch, handles_pos: hp, ..m1 })),
    }
}

/// The boundary object handles of `n` paths read in order (see
/// [`spec_boundary_handles`]).
pub open spec fn spec_all_boundary_handles(m: StreamsModel, len: nat, n: nat)
    -> Result<(Seq<Seq<u64>>, StreamsModel), DxfError>
    decreases n,
{
    if n == 0 {
        Ok((Seq::empty(), m))
    } else {
        match spec_boundary_handles(m, len) {
            Err(e) => Err(e),
            Ok((hs, m1)) => match spec_all_boundary_handles(m1, len, (n - 1) as nat) {
                Err(e) => Err(e),
                Ok((rest, m2)) => Ok((seq![hs] + rest, m2)),
            },
        }
    }
}

/// The fields of a hatch after its gradient: elevation, normal, pattern
/// name, solid and associative bits and path count.
pub open spec fn hatch_head_layout() -> Seq<FieldKind> {
    seq![FieldKind::BitDouble, FieldKind::Point3, FieldKind::Text, FieldKind::Bit, FieldKind::Bit,
        FieldKind::BitLong]
}

/// The content of a hatch.
pub struct HatchModel {
    pub common: EntityCommon,
    pub elevation: u64,
    pub normal: (u64, u64, u64),
    pub pattern_name: Seq<char>,
    pub pattern_lines: Seq<PatternLineModel>,
    pub is_solid: bool,
    pub is_associative: bool,
    pub pattern_type: HatchPatternType,
    pub pattern_angle: u64,
    pub pattern_scale: u64,
    pub is_double: bool,
    pub style: HatchStyleType,
    pub paths: Seq<PathModel>,
    pub seed_points: Seq<(u64, u64)>,
    pub pixel_size: u64,
    pub gradient: GradientModel,
}

impl View for HatchEntity {
    type V = HatchModel;

    open spec fn view(&self) -> HatchModel {
        HatchModel {
            common: self.common,
            elevation: self.elevation,
            normal: self.normal,
            pattern_name: self.pattern_name@,
            pattern_lines: lines_model(self.pattern_lines@),
            is_solid: self.is_solid,
            is_associative: self.is_associative,
            pattern_type: self.pattern_type,
            pattern_angle: self.pattern_angle,
            pattern_scale: self.pattern_scale,
            is_double: self.is_double,
            style: self.style,
            paths: paths_model(self.paths@),
            seed_points: self.seed_points@,
            pixel_size: self.pixel_size,
            gradient: self.gradient@,
        }
    }
}

/// The object data of a hatch read from `m` (data of `len` bytes,
/// version `v`) with the common properties `ec`: its gradient (see
/// [`spec_gradient`]), the fields of [`hatch_head_layout`], as many
/// paths as the count says (see [`spec_paths`]), the pattern (see
/// [`spec_pattern`]), the pixel size and seeds (see [`spec_seeds`]) and,
/// for each path again, its boundary object handles (see
/// [`spec_boundary_handles`]).
#[verifier::opaque]
pub open spec fn spec_hatch_body(m: StreamsModel, len: nat, v: DxfVersion, reference: u64, ec: EntityCommon)
    -> Result<((HatchModel, Seq<Seq<u64>>), StreamsModel), DxfError>
{
    match spec_gradient(m, len, v, reference) {
        Err(e) => Err(e),
        Ok((g, m1)) => match spec_fields(m1, len, v, reference, hatch_head_layout()) {
            Err(e) => Err(e),
            Ok((hs, m2)) => {
                let n = field_count(hs[5]);
                let solid = field_bool(hs[3]);
                match spec_paths(m2, len, v, reference, n) {
                    Err(e) => Err(e),
                    Ok((ps, m3)) => match spec_pattern(m3, len, v, reference, solid) {
                        Err(e) => Err(e),
                        Ok(((style, ptype, angle, scale, double, ls), m4)) => match spec_seeds(m4, len, v, reference) {
                            Err(e) => Err(e),
                            Ok(((px, seeds), m5)) => match spec_all_boundary_handles(m5, len, n) {
                                Err(e) => Err(e),
                                Ok((bh, m6)) => Ok(((HatchModel {
                                    common: ec,
                                    elevation: field_double(hs[0]),
                                    normal: field_point(hs[1]),
                                    pattern_name: field_text(hs[2]),
                                    pattern_lines: ls,
                                    is_solid: solid,
                                    is_associative: field_bool(hs[4]),
                                    pattern_type: pattern_type_of(ptype),
                                    pattern_angle: angle,
                                    pattern_scale: scale,
                                    is_double: double,
                                    style: hatch_style_of(style),
                                    paths: ps,
                                    seed_points: seeds,
                                    pixel_size: px,
                                    gradient: g,
                                }, bh), m6)),
                            },
                        },
                    },
                }
            },
        },
    }
}

/// A hatch read from the streams `m` of `data` (version `v`, object data
/// starting at bit `init`, current handle `reference`): its common entity
/// data (see [`spec_common_entity`]), then its object data (see
/// [`spec_hatch_body`]).
pub open spec fn spec_hatch(m: StreamsModel, data: Seq<u8>, v: DxfVersion, init: int, reference: u64)
    -> Result<((CommonModel, CadEntityTemplateData, HatchModel, Seq<Seq<u64>>), StreamsModel), DxfError>
{
    match spec_common_entity(m, data, v, init) {
        Err(e) => Err(e),
        Ok(((cm, ent, ec), m1)) => match spec_hatch_body(m1, data.len(), v, reference, ec) {
            Err(e) => Err(e),
            Ok(((h, bh), m2)) => Ok(((cm, ent, h, bh), m2)),
        },
    }
}

/// The content of an optional edge.
pub open spec fn opt_edge_model(o: Option<BoundaryEdge>) -> Option<EdgeModel> {
    match o {
        Some(e) => Some(e@),
        None => None,
    }
}

/// The long a field value holds (see [`field_long`]).
fn field_long_of(f: &FieldValue) -> (r: i32)
    ensures
        r == field_long(f@),
{
    match f {
        FieldValue::Long(n) => *n,
        _ => 0,
    }
}

/// The color a field value holds (see [`field_color`]).
fn field_color_of(f: &FieldValue) -> (r: DwgColor)
    ensures
        r == field_color(f@),
{
    match f {
        FieldValue::Color(c) => *c,
        _ => DwgColor::ByLayer,
    }
}

/// The count a BitShort field value holds (see [`short_count`]).
fn short_count_of(f: &FieldValue) -> (r: usize)
    ensures
        r == short_count(f@),
{
    match f {
        FieldValue::Short(n) => *n as usize,
        _ => 0,
    }
}

/// The doubles held by rows of one double each (see [`row_doubles`]).
fn doubles_from_rows(rows: &Vec<Vec<FieldValue>>) -> (r: Vec<u64>)
    requires
        forall|j: int| 0 <= j < rows@.len() ==> #[trigger] rows_model(rows@)[j].len() == 1,
    ensures
        r@ == row_doubles(rows_model(rows@)),
{
    let ghost rm = rows_model(rows@);
    let mut out: Vec<u64> = Vec::new();
    let mut i: usize = 0;
    while i < rows.len()
        invariant
            i <= rows@.len(),
            rm == rows_model(rows@),
            forall|j: int| 0 <= j < rows@.len() ==> #[trigger] rm[j].len() == 1,
            out@ =~= row_doubles(rm).take(i as int),
        decreases rows@.len() - i,
    {
        assert(rm[i as int] == fields_model(rows@[i as int]@));
        assert(rm[i as int].len() == 1);
        out.push(field_double_of(&rows[i][0]));
        i = i + 1;
    }
    out
}

/// The pairs held by rows of two doubles each (see [`row_pairs`]).
fn pairs_from_rows(rows: &Vec<Vec<FieldValue>>) -> (r: Vec<(u64, u64)>)
    requires
        forall|j: int| 0 <= j < rows@.len() ==> #[trigger] rows_model(rows@)[j].len() == 2,
    ensures
        r@ == row_pairs(rows_model(rows@)),
{
    let ghost rm = rows_model(rows@);
    let mut out: Vec<(u64, u64)> = Vec::new();
    let mut i: usize = 0;
    while i < rows.len()
        invariant
            i <= rows@.len(),
            rm == rows_model(rows@),
            forall|j: int| 0 <= j < rows@.len() ==> #[trigger] rm[j].len() == 2,
            out@ =~= row_pairs(rm).take(i as int),
        decreases rows@.len() - i,
    {
        assert(rm[i as int] == fields_model(rows@[i as int]@));
        assert(rm[i as int].len() == 2);
        out.push((field_double_of(&rows[i][0]), field_double_of(&rows[i][1])));
        i = i + 1;
    }
    out
}

/// The triples held by rows of two doubles each and, when `third`, a
/// third double (else `d`; see [`row_triples`]).
fn triples_from_rows(rows: &Vec<Vec<FieldValue>>, third: bool, d: u64) -> (r: Vec<(u64, u64, u64)>)
    requires
        forall|j: int| 0 <= j < rows@.len() ==> #[trigger] rows_model(rows@)[j].len() == point_row(third).len(),
    ensures
        r@ == row_triples(rows_model(rows@), third, d),
{
    let ghost rm = rows_model(rows@);
    let mut out: Vec<(u64, u64, u64)> = Vec::new();
    let mut i: usize = 0;
    while i < rows.len()
        invariant
            i <= rows@.len(),
            rm == rows_model(rows@),
            forall|j: int| 0 <= j < rows@.len() ==> #[trigger] rm[j].len() == point_row(third).len(),
            out@ =~= row_triples(rm, third, d).take(i as int),
        decreases rows@.len() - i,
    {
        assert(rm[i as int] == fields_model(rows@[i as int]@));
        assert(rm[i as int].len() == point_row(third).len());
        let z = if third { field_double_of(&rows[i][2]) } else { d };
        out.push((field_double_of(&rows[i][0]), field_double_of(&rows[i][1]), z));
        i = i + 1;
    }
    out
}

/// The gradient colors held by rows of a double and a color each (see
/// [`row_colors`]).
fn colors_from_rows(rows: &Vec<Vec<FieldValue>>) -> (r: Vec<GradientColor>)
    requires
        forall|j: int| 0 <= j < rows@.len() ==> #[trigger] rows_model(rows@)[j].len() == 2,
    ensures
        r@ == row_colors(rows_model(rows@)),
{
    let ghost rm = rows_model(rows@);
    let mut out: Vec<GradientColor> = Vec::new();
    let mut i: usize = 0;
    while i < rows.len()
        invariant
            i <= rows@.len(),
            rm == rows_model(rows@),
            forall|j: int| 0 <= j < rows@.len() ==> #[trigger] rm[j].len() == 2,
            out@ =~= row_colors(rm).take(i as int),
        decreases rows@.len() - i,
    {
        assert(rm[i as int] == fields_model(rows@[i as int]@));
        assert(rm[i as int].len() == 2);
        out.push(GradientColor { value: field_double_of(&rows[i][0]), color: field_color_of(&rows[i][1]) });
        i = i + 1;
    }
    out
}

/// The layout of a row of two raw doubles and, when `third`, a BitDouble
/// (see [`point_row`]).
fn point_row_list(third: bool) -> (r: Vec<FieldKind>)
    ensures
        r@ == point_row(third),
{
    let r = if third {
        vec![FieldKind::RawDouble, FieldKind::RawDouble, FieldKind::BitDouble]
    } else {
        vec![FieldKind::RawDouble, FieldKind::RawDouble]
    };
    proof { assert(r@ =~= point_row(third)); }
    r
}

/// Read the rows of `n` repetitions of `kinds`, each of `kinds@.len()`
/// values (see [`spec_repeated`]).
fn read_rows(streams: &mut StreamSet, kinds: &Vec<FieldKind>, n: usize)
    -> (r: Result<Vec<Vec<FieldValue>>, DxfError>)
    requires
        streams_of(*old(streams), old(streams).object_reader.data(), old(streams).object_reader.spec_version()),
    ensures
        streams_of(*final(streams), old(streams).object_reader.data(), old(streams).object_reader.spec_version()),
        final(streams).current_handle == old(streams).current_handle,
        match spec_repeated(model_of(*old(streams)), old(streams).object_reader.data().len(),
            old(streams).object_reader.spec_version(), old(streams).current_handle, kinds@, n as nat) {
            Err(e) => r matches Err(e2) && e2 == e,
            Ok((rs, m)) => r matches Ok(x) && rows_model(x@) == rs && model_of(*final(streams)) == m
                && forall|j: int| 0 <= j < x@.len() ==> #[trigger] rows_model(x@)[j].len() == kinds@.len(),
        },
{
    proof {
        lemma_repeated_shape(model_of(*streams), streams.object_reader.data().len(),
            streams.object_reader.spec_version(), streams.current_handle, kinds@, n as nat);
    }
    read_repeated(streams, kinds, n)
}

/// Read one field of kind `kind` (see [`spec_field`]).
fn read_one(streams: &mut StreamSet, kind: FieldKind) -> (r: Result<FieldValue, DxfError>)
    requires
        streams_of(*old(streams), old(streams).object_reader.data(), old(streams).object_reader.spec_version()),
    ensures
        streams_of(*final(streams), old(streams).object_reader.data(), old(streams).object_reader.spec_version()),
        final(streams).current_handle == old(streams).current_handle,
        match spec_field(model_of(*old(streams)), old(streams).object_reader.data().len(),
            old(streams).object_reader.spec_version(), old(streams).current_handle, kind) {
            Err(e) => r matches Err(e2) && e2 == e,
            Ok((f, m)) => r matches Ok(x) && x@ == f && model_of(*final(streams)) == m,
        },
{
    read_stream_field(streams, kind)
}

/// Read the fields of `kinds` (see [`spec_fields`]), one value per kind.
fn read_some(streams: &mut StreamSet, kinds: &Vec<FieldKind>) -> (r: Result<Vec<FieldValue>, DxfError>)
    requires
        streams_of(*old(streams), old(streams).object_reader.data(), old(streams).object_reader.spec_version()),
    ensures
        streams_of(*final(streams), old(streams).object_reader.data(), old(streams).object_reader.spec_version()),
        final(streams).current_handle == old(streams).current_handle,
        match spec_fields(model_of(*old(streams)), old(streams).object_reader.data().len(),
            old(streams).object_reader.spec_version(), old(streams).current_handle, kinds@) {
            Err(e) => r matches Err(e2) && e2 == e,
            Ok((fs, m)) => r matches Ok(x) && fields_model(x@) == fs && x@.len() == kinds@.len()
                && model_of(*final(streams)) == m,
        },
{
    proof {
        lemma_fields_len(model_of(*streams), streams.object_reader.data().len(),
            streams.object_reader.spec_version(), streams.current_handle, kinds@);
    }
    read_stream_fields(streams, kinds)
}

/// Read the gradient of a hatch (see [`spec_gradient`]).
fn read_gradient(streams: &mut StreamSet) -> (r: Result<HatchGradient, DxfError>)
    requires
        streams_of(*old(streams), old(streams).object_reader.data(), old(streams).object_reader.spec_version()),
    ensures
        streams_of(*final(streams), old(streams).object_reader.data(), old(streams).object_reader.spec_version()),
        final(streams).current_handle == old(streams).current_handle,
        match spec_gradient(model_of(*old(streams)), old(streams).object_reader.data().len(),
            old(streams).object_reader.spec_version(), old(streams).current_handle) {
            Err(e) => r matches Err(e2) && e2 == e,
            Ok((g, m)) => r matches Ok(x) && x@ == g && model_of(*final(streams)) == m,
        },
{
    proof { reveal(spec_gradient); }
    let none = HatchGradient {
        enabled: false,
        reserved: 0,
        angle: 0,
        shift: 0,
        is_single_color: false,
        color_tint: 0,
        colors: Vec::new(),
        name: String::new(),
    };
    if !streams.object_reader.version().at_least(DxfVersion::AC1018) {
        return Ok(none);
    }
    let flag = read_one(streams, FieldKind::BitLong)?;
    if field_long_of(&flag) == 0 {
        return Ok(none);
    }
    let kinds = vec![FieldKind::BitLong, FieldKind::BitDouble, FieldKind::BitDouble, FieldKind::BitLong,
        FieldKind::BitDouble, FieldKind::BitLong];
    proof { assert(kinds@ =~= gradient_layout()); }
    let gs = read_some(streams, &kinds)?;
    let row = vec![FieldKind::BitDouble, FieldKind::CmColor];
    proof { assert(row@ =~= seq![FieldKind::BitDouble, FieldKind::CmColor]); }
    let rows = read_rows(streams, &row, field_count_of(&gs[5]))?;
    let name = read_one(streams, FieldKind::Text)?;
    Ok(HatchGradient {
        enabled: true,
        reserved: field_long_of(&gs[0]),
        angle: field_double_of(&gs[1]),
        shift: field_double_of(&gs[2]),
        is_single_color: field_long_of(&gs[3]) != 0,
        color_tint: field_double_of(&gs[4]),
        colors: colors_from_rows(&rows),
        name: field_text_of(&name),
    })
}

/// Read the fit data of a spline edge (see [`spec_spline_fit`]).
fn read_spline_fit(streams: &mut StreamSet) -> (r: Result<(Vec<(u64, u64)>, (u64, u64), (u64, u64)), DxfError>)
    requires
        streams_of(*old(streams), old(streams).object_reader.data(), old(streams).object_reader.spec_version()),
    ensures
        streams_of(*final(streams), old(streams).object_reader.data(), old(streams).object_reader.spec_version()),
        final(streams).current_handle == old(streams).current_handle,
        match spec_spline_fit(model_of(*old(streams)), old(streams).object_reader.data().len(),
            old(streams).object_reader.spec_version(), old(streams).current_handle) {
            Err(e) => r matches Err(e2) && e2 == e,
            Ok(((fit, st, et), m)) => r matches Ok((f, s, t)) && f@ == fit && s == st && t == et
                && model_of(*final(streams)) == m,
        },
{
    proof { reveal(spec_spline_fit); }
    let r2010 = streams.object_reader.version().at_least(DxfVersion::AC1024);
    let nf = if r2010 { read_one(streams, FieldKind::BitLong)? } else { FieldValue::Long(0) };
    let row = point_row_list(false);
    let n = field_count_of(&nf);
    let rows = read_rows(streams, &row, n)?;
    let fit = pairs_from_rows(&rows);
    if r2010 && n > 0 {
        let kinds = vec![FieldKind::RawDouble, FieldKind::RawDouble, FieldKind::RawDouble, FieldKind::RawDouble];
        proof {
            assert(kinds@ =~= seq![FieldKind::RawDouble, FieldKind::RawDouble, FieldKind::RawDouble,
                FieldKind::RawDouble]);
        }
        let ts = read_some(streams, &kinds)?;
        Ok((fit, (field_double_of(&ts[0]), field_double_of(&ts[1])), (field_double_of(&ts[2]),
            field_double_of(&ts[3]))))
    } else {
        Ok((fit, (0, 0), (0, 0)))
    }
}

/// Read a spline edge (see [`spec_spline_edge`]).
fn read_spline_edge(streams: &mut StreamSet) -> (r: Result<BoundaryEdge, DxfError>)
    requires
        streams_of(*old(streams), old(streams).object_reader.data(), old(streams).object_reader.spec_version()),
    ensures
        streams_of(*final(streams), old(streams).object_reader.data(), old(streams).object_reader.spec_version()),
        final(streams).current_handle == old(streams).current_handle,
        match spec_spline_edge(model_of(*old(streams)), old(streams).object_reader.data().len(),
            old(streams).object_reader.spec_version(), old(streams).current_handle) {
            Err(e) => r matches Err(e2) && e2 == e,
            Ok((ed, m)) => r matches Ok(x) && x@ == ed && model_of(*final(streams)) == m,
        },
{
    proof { reveal(spec_spline_edge); }
    let kinds = vec![FieldKind::BitLong, FieldKind::Bit, FieldKind::Bit, FieldKind::BitLong, FieldKind::BitLong];
    proof { assert(kinds@ =~= spline_edge_layout()); }
    let sh = read_some(streams, &kinds)?;
    let knot_row = vec![FieldKind::BitDouble];
    proof { assert(knot_row@ =~= seq![FieldKind::BitDouble]); }
    let knots = read_rows(streams, &knot_row, field_count_of(&sh[3]))?;
    let rational = field_bool_of(&sh[1]);
    let ctrl_row = point_row_list(rational);
    let ctrl = read_rows(streams, &ctrl_row, field_count_of(&sh[4]))?;
    let (fit_points, start_tangent, end_tangent) = read_spline_fit(streams)?;
    Ok(BoundaryEdge::Spline {
        degree: field_long_of(&sh[0]),
        rational,
        periodic: field_bool_of(&sh[2]),
        knots: doubles_from_rows(&knots),
        control_points: triples_from_rows(&ctrl, rational, 0x3FF0_0000_0000_0000),
        fit_points,
        start_tangent,
        end_tangent,
    })
}

/// Read one edge (see [`spec_edge`]).
fn read_edge(streams: &mut StreamSet) -> (r: Result<Option<BoundaryEdge>, DxfError>)
    requires
        streams_of(*old(streams), old(streams).object_reader.data(), old(streams).object_reader.spec_version()),
    ensures
        streams_of(*final(streams), old(streams).object_reader.data(), old(streams).object_reader.spec_version()),
        final(streams).current_handle == old(streams).current_handle,
        match spec_edge(model_of(*old(streams)), old(streams).object_reader.data().len(),
            old(streams).object_reader.spec_version(), old(streams).current_handle) {
            Err(e) => r matches Err(e2) && e2 == e,
            Ok((oe, m)) => r matches Ok(x) && opt_edge_model(x) == oe && model_of(*final(streams)) == m,
        },
{
    proof { reveal(spec_edge); }
    let t = match read_one(streams, FieldKind::RawChar)? {
        FieldValue::Char(b) => b,
        _ => 0,
    };
    if t == 1 {
        let kinds = vec![FieldKind::RawDouble, FieldKind::RawDouble, FieldKind::RawDouble, FieldKind::RawDouble];
        proof {
            assert(kinds@ =~= seq![FieldKind::RawDouble, FieldKind::RawDouble, FieldKind::RawDouble,
                FieldKind::RawDouble]);
        }
        let fs = read_some(streams, &kinds)?;
        Ok(Some(BoundaryEdge::Line {
            start: (field_double_of(&fs[0]), field_double_of(&fs[1])),
            end: (field_double_of(&fs[2]), field_double_of(&fs[3])),
        }))
    } else if t == 2 {
        let kinds = vec![FieldKind::RawDouble, FieldKind::RawDouble, FieldKind::BitDouble, FieldKind::BitDouble,
            FieldKind::BitDouble, FieldKind::Bit];
        proof {
            assert(kinds@ =~= seq![FieldKind::RawDouble, FieldKind::RawDouble, FieldKind::BitDouble,
                FieldKind::BitDouble, FieldKind::BitDouble, FieldKind::Bit]);
        }
        let fs = read_some(streams, &kinds)?;
        Ok(Some(BoundaryEdge::CircularArc {
            center: (field_double_of(&fs[0]), field_double_of(&fs[1])),
            radius: field_double_of(&fs[2]),
            start_angle: field_double_of(&fs[3]),
            end_angle: field_double_of(&fs[4]),
            counter_clockwise: field_bool_of(&fs[5]),
        }))
    } else if t == 3 {
        let kinds = vec![FieldKind::RawDouble, FieldKind::RawDouble, FieldKind::RawDouble, FieldKind::RawDouble,
            FieldKind::BitDouble, FieldKind::BitDouble, FieldKind::BitDouble, FieldKind::Bit];
        proof {
            assert(kinds@ =~= seq![FieldKind::RawDouble, FieldKind::RawDouble, FieldKind::RawDouble,
                FieldKind::RawDouble, FieldKind::BitDouble, FieldKind::BitDouble, FieldKind::BitDouble,
                FieldKind::Bit]);
        }
        let fs = read_some(streams, &kinds)?;
        Ok(Some(BoundaryEdge::EllipticArc {
            center: (field_double_of(&fs[0]), field_double_of(&fs[1])),
            major_axis_endpoint: (field_double_of(&fs[2]), field_double_of(&fs[3])),
            minor_axis_ratio: field_double_of(&fs[4]),
            start_angle: field_double_of(&fs[5]),
            end_angle: field_double_of(&fs[6]),
            counter_clockwise: field_bool_of(&fs[7]),
        }))
    } else if t == 4 {
        let e = read_spline_edge(streams)?;
        Ok(Some(e))
    } else {
        Ok(None)
    }
}

/// Read `n` edges (see [`spec_edges`]).
fn read_edges(streams: &mut StreamSet, n: usize) -> (r: Result<Vec<BoundaryEdge>, DxfError>)
    requires
        streams_of(*old(streams), old(streams).object_reader.data(), old(streams).object_reader.spec_version()),
    ensures
        streams_of(*final(streams), old(streams).object_reader.data(), old(streams).object_reader.spec_version()),
        final(streams).current_handle == old(streams).current_handle,
        match spec_edges(model_of(*old(streams)), old(streams).object_reader.data().len(),
            old(streams).object_reader.spec_version(), old(streams).current_handle, n as nat) {
            Err(e) => r matches Err(e2) && e2 == e,
            Ok((es, m)) => r matches Ok(x) && edges_model(x@) == es && model_of(*final(streams)) == m,
        },
{
    let ghost data = streams.object_reader.data();
    let ghost len = data.len();
    let ghost v = streams.object_reader.spec_version();
    let ghost reference = streams.current_handle;
    let ghost total = spec_edges(model_of(*streams), len, v, reference, n as nat);
    let mut out: Vec<BoundaryEdge> = Vec::new();
    let mut i: usize = 0;
    proof {
        if let Ok((es, m)) = total {
            assert(edges_model(out@) + es =~= es);
        }
    }
    while i < n
        invariant
            i <= n,
            len == data.len(),
            data == old(streams).object_reader.data(),
            v == old(streams).object_reader.spec_version(),
            reference == streams.current_handle,
            reference == old(streams).current_handle,
            streams_of(*streams, data, v),
            total == spec_edges(model_of(*old(streams)), len, v, reference, n as nat),
            total == (match spec_edges(model_of(*streams), len, v, reference, (n - i) as nat) {
                Err(e) => Err(e),
                Ok((es, m)) => Ok((edges_model(out@) + es, m)),
            }),
        decreases n - i,
    {
        let ghost rest0 = spec_edges(model_of(*streams), len, v, reference, (n - i) as nat);
        let e = match read_edge(streams) {
            Ok(e) => e,
            Err(e) => {
                proof { assert(rest0 matches Err(e2) && e2 == e); }
                return Err(e);
            },
        };
        match e {
            Some(x) => {
                proof {
                    let rest1 = spec_edges(model_of(*streams), len, v, reference, (n - i - 1) as nat);
                    if let Ok((es, m)) = rest1 {
                        assert(edges_model(out@) + (seq![x@] + es) =~= edges_model(out@.push(x)) + es);
                    }
                }
                out.push(x);
            },
            None => {},
        }
        i = i + 1;
    }
    proof {
        if let Ok((es, m)) = total {
            assert(edges_model(out@) + Seq::<EdgeModel>::empty() =~= edges_model(out@));
        }
    }
    Ok(out)
}

/// Read one boundary path (see [`spec_path`]).
fn read_path(streams: &mut StreamSet) -> (r: Result<BoundaryPath, DxfError>)
    requires
        streams_of(*old(streams), old(streams).object_reader.data(), old(streams).object_reader.spec_version()),
    ensures
        streams_of(*final(streams), old(streams).object_reader.data(), old(streams).object_reader.spec_version()),
        final(streams).current_handle == old(streams).current_handle,
        match spec_path(model_of(*old(streams)), old(streams).object_reader.data().len(),
            old(streams).object_reader.spec_version(), old(streams).current_handle) {
            Err(e) => r matches Err(e2) && e2 == e,
            Ok((p, m)) => r matches Ok(x) && x@ == p && model_of(*final(streams)) == m,
        },
{
    proof { reveal(spec_path); }
    let f = read_one(streams, FieldKind::BitLong)?;
    let flags = field_long_of(&f) as u32;
    let edges = if flags & 2 != 0 {
        let kinds = vec![FieldKind::Bit, FieldKind::Bit, FieldKind::BitLong];
        proof { assert(kinds@ =~= seq![FieldKind::Bit, FieldKind::Bit, FieldKind::BitLong]); }
        let ph = read_some(streams, &kinds)?;
        let bulge = field_bool_of(&ph[0]);
        let row = point_row_list(bulge);
        let rows = read_rows(streams, &row, field_count_of(&ph[2]))?;
        let edge = BoundaryEdge::Polyline { vertices: triples_from_rows(&rows, bulge, 0), is_closed: true };
        let mut es: Vec<BoundaryEdge> = Vec::new();
        es.push(edge);
        proof { assert(edges_model(es@) =~= seq![es@[0]@]); }
        es
    } else {
        let ne = read_one(streams, FieldKind::BitLong)?;
        read_edges(streams, field_count_of(&ne))?
    };
    let _objects = read_one(streams, FieldKind::BitLong)?;
    Ok(BoundaryPath { flags, edges })
}

/// Read `n` boundary paths (see [`spec_paths`]).
fn read_paths(streams: &mut StreamSet, n: usize) -> (r: Result<Vec<BoundaryPath>, DxfError>)
    requires
        streams_of(*old(streams), old(streams).object_reader.data(), old(streams).object_reader.spec_version()),
    ensures
        streams_of(*final(streams), old(streams).object_reader.data(), old(streams).object_reader.spec_version()),
        final(streams).current_handle == old(streams).current_handle,
        match spec_paths(model_of(*old(streams)), old(streams).object_reader.data().len(),
            old(streams).object_reader.spec_version(), old(streams).current_handle, n as nat) {
            Err(e) => r matches Err(e2) && e2 == e,
            Ok((ps, m)) => r matches Ok(x) && paths_model(x@) == ps && model_of(*final(streams)) == m,
        },
{
    let ghost data = streams.object_reader.data();
    let ghost len = data.len();
    let ghost v = streams.object_reader.spec_version();
    let ghost reference = streams.current_handle;
    let ghost total = spec_paths(model_of(*streams), len, v, reference, n as nat);
    let mut out: Vec<BoundaryPath> = Vec::new();
    let mut i: usize = 0;
    proof {
        if let Ok((ps, m)) = total {
            assert(paths_model(out@) + ps =~= ps);
        }
    }
    while i < n
        invariant
            i <= n,
            len == data.len(),
            data == old(streams).object_reader.data(),
            v == old(streams).object_reader.spec_version(),
            reference == streams.current_handle,
            reference == old(streams).current_handle,
            streams_of(*streams, data, v),
            total == spec_paths(model_of(*old(streams)), len, v, reference, n as nat),
            total == (match spec_paths(model_of(*streams), len, v, reference, (n - i) as nat) {
                Err(e) => Err(e),
                Ok((ps, m)) => Ok((paths_model(out@) + ps, m)),
            }),
        decreases n - i,
    {
        let ghost rest0 = spec_paths(model_of(*streams), len, v, reference, (n - i) as nat);
        let p = match read_path(streams) {
            Ok(p) => p,
            Err(e) => {
                proof { assert(rest0 matches Err(e2) && e2 == e); }
                return Err(e);
            },
        };
        proof {
            let rest1 = spec_paths(model_of(*streams), len, v, reference, (n - i - 1) as nat);
            if let Ok((ps, m)) = rest1 {
                assert(paths_model(out@) + (seq![p@] + ps) =~= paths_model(out@.push(p)) + ps);
            }
        }
        out.push(p);
        i = i + 1;
    }
    proof {
        if let Ok((ps, m)) = total {
            assert(paths_model(out@) + Seq::<PathModel>::empty() =~= paths_model(out@));
        }
    }
    Ok(out)
}

/// Read one pattern line (see [`spec_pattern_line`]).
fn read_pattern_line(streams: &mut StreamSet) -> (r: Result<HatchPatternLine, DxfError>)
    requires
        streams_of(*old(streams), old(streams).object_reader.data(), old(streams).object_reader.spec_version()),
    ensures
        streams_of(*final(streams), old(streams).object_reader.data(), old(streams).object_reader.spec_version()),
        final(streams).current_handle == old(streams).current_handle,
        match spec_pattern_line(model_of(*old(streams)), old(streams).object_reader.data().len(),
            old(streams).object_reader.spec_version(), old(streams).current_handle) {
            Err(e) => r matches Err(e2) && e2 == e,
            Ok((l, m)) => r matches Ok(x) && x@ == l && model_of(*final(streams)) == m,
        },
{
    proof { reveal(spec_pattern_line); }
    let kinds = vec![FieldKind::BitDouble, FieldKind::RawDouble, FieldKind::RawDouble, FieldKind::RawDouble,
        FieldKind::RawDouble, FieldKind::BitShort];
    proof {
        assert(kinds@ =~= seq![FieldKind::BitDouble, FieldKind::RawDouble, FieldKind::RawDouble,
            FieldKind::RawDouble, FieldKind::RawDouble, FieldKind::BitShort]);
    }
    let fs = read_some(streams, &kinds)?;
    let row = vec![FieldKind::BitDouble];
    proof { assert(row@ =~= seq![FieldKind::BitDouble]); }
    let ds = read_rows(streams, &row, short_count_of(&fs[5]))?;
    Ok(HatchPatternLine {
        angle: field_double_of(&fs[0]),
        base_point: (field_double_of(&fs[1]), field_double_of(&fs[2])),
        offset: (field_double_of(&fs[3]), field_double_of(&fs[4])),
        dash_lengths: doubles_from_rows(&ds),
    })
}

/// Read `n` pattern lines (see [`spec_pattern_lines`]).
fn read_pattern_lines(streams: &mut StreamSet, n: usize) -> (r: Result<Vec<HatchPatternLine>, DxfError>)
    requires
        streams_of(*old(streams), old(streams).object_reader.data(), old(streams).object_reader.spec_version()),
    ensures
        streams_of(*final(streams), old(streams).object_reader.data(), old(streams).object_reader.spec_version()),
        final(streams).current_handle == old(streams).current_handle,
        match spec_pattern_lines(model_of(*old(streams)), old(streams).object_reader.data().len(),
            old(streams).object_reader.spec_version(), old(streams).current_handle, n as nat) {
            Err(e) => r matches Err(e2) && e2 == e,
            Ok((ls, m)) => r matches Ok(x) && lines_model(x@) == ls && model_of(*final(streams)) == m,
        },
{
    let ghost data = streams.object_reader.data();
    let ghost len = data.len();
    let ghost v = streams.object_reader.spec_version();
    let ghost reference = streams.current_handle;
    let ghost total = spec_pattern_lines(model_of(*streams), len, v, reference, n as nat);
    let mut out: Vec<HatchPatternLine> = Vec::new();
    let mut i: usize = 0;
    proof {
        if let Ok((ls, m)) = total {
            assert(lines_model(out@) + ls =~= ls);
        }
    }
    while i < n
        invariant
            i <= n,
            len == data.len(),
            data == old(streams).object_reader.data(),
            v == old(streams).object_reader.spec_version(),
            reference == streams.current_handle,
            reference == old(streams).current_handle,
            streams_of(*streams, data, v),
            total == spec_pattern_lines(model_of(*old(streams)), len, v, reference, n as nat),
            total == (match spec_pattern_lines(model_of(*streams), len, v, reference, (n - i) as nat) {
                Err(e) => Err(e),
                Ok((ls, m)) => Ok((lines_model(out@) + ls, m)),
            }),
        decreases n - i,
    {
        let ghost rest0 = spec_pattern_lines(model_of(*streams), len, v, reference, (n - i) as nat);
        let l = match read_pattern_line(streams) {
            Ok(l) => l,
            Err(e) => {
                proof { assert(rest0 matches Err(e2) && e2 == e); }
                return Err(e);
            },
        };
        proof {
            let rest1 = spec_pattern_lines(model_of(*streams), len, v, reference, (n - i - 1) as nat);
            if let Ok((ls, m)) = rest1 {
                assert(lines_model(out@) + (seq![l@] + ls) =~= lines_model(out@.push(l)) + ls);
            }
        }
        out.push(l);
        i = i + 1;
    }
    proof {
        if let Ok((ls, m)) = total {
            assert(lines_model(out@) + Seq::<PatternLineModel>::empty() =~= lines_model(out@));
        }
    }
    Ok(out)
}

/// Read the pattern of a hatch, `solid` or not (see [`spec_pattern`]).
fn read_pattern(streams: &mut StreamSet, solid: bool)
    -> (r: Result<(i16, i16, u64, u64, bool, Vec<HatchPatternLine>), DxfError>)
    requires
        streams_of(*old(streams), old(streams).object_reader.data(), old(streams).object_reader.spec_version()),
    ensures
        streams_of(*final(streams), old(streams).object_reader.data(), old(streams).object_reader.spec_version()),
        final(streams).current_handle == old(streams).current_handle,
        match spec_pattern(model_of(*old(streams)), old(streams).object_reader.data().len(),
            old(streams).object_reader.spec_version(), old(streams).current_handle, solid) {
            Err(e) => r matches Err(e2) && e2 == e,
            Ok(((st, pt, a, sc, d, ls), m)) => r matches Ok((st2, pt2, a2, sc2, d2, ls2)) && st2 == st && pt2 == pt
                && a2 == a && sc2 == sc && d2 == d && lines_model(ls2@) == ls && model_of(*final(streams)) == m,
        },
{
    proof { reveal(spec_pattern); }
    let kinds = vec![FieldKind::BitShort, FieldKind::BitShort];
    proof { assert(kinds@ =~= seq![FieldKind::BitShort, FieldKind::BitShort]); }
    let st = read_some(streams, &kinds)?;
    if solid {
        let ls: Vec<HatchPatternLine> = Vec::new();
        proof { assert(lines_model(ls@) =~= Seq::<PatternLineModel>::empty()); }
        return Ok((field_short_of(&st[0]), field_short_of(&st[1]), 0, 0x3FF0_0000_0000_0000, false, ls));
    }
    let kinds2 = vec![FieldKind::BitDouble, FieldKind::BitDouble, FieldKind::Bit, FieldKind::BitShort];
    proof {
        assert(kinds2@ =~= seq![FieldKind::BitDouble, FieldKind::BitDouble, FieldKind::Bit, FieldKind::BitShort]);
    }
    let ps = read_some(streams, &kinds2)?;
    let ls = read_pattern_lines(streams, short_count_of(&ps[3]))?;
    Ok((field_short_of(&st[0]), field_short_of(&st[1]), field_double_of(&ps[0]), field_double_of(&ps[1]),
        field_bool_of(&ps[2]), ls))
}

/// Read the pixel size and seed points of a hatch (see [`spec_seeds`]).
fn read_seeds(streams: &mut StreamSet) -> (r: Result<(u64, Vec<(u64, u64)>), DxfError>)
    requires
        streams_of(*old(streams), old(streams).object_reader.data(), old(streams).object_reader.spec_version()),
    ensures
        streams_of(*final(streams), old(streams).object_reader.data(), old(streams).object_reader.spec_version()),
        final(streams).current_handle == old(streams).current_handle,
        match spec_seeds(model_of(*old(streams)), old(streams).object_reader.data().len(),
            old(streams).object_reader.spec_version(), old(streams).current_handle) {
            Err(e) => r matches Err(e2) && e2 == e,
            Ok(((px, seeds), m)) => r matches Ok((p, s)) && p == px && s@ == seeds && model_of(*final(streams)) == m,
        },
{
    proof { reveal(spec_seeds); }
    let b = read_one(streams, FieldKind::Bit)?;
    let px = if field_bool_of(&b) { read_one(streams, FieldKind::BitDouble)? } else { FieldValue::Double(0) };
    let ns = read_one(streams, FieldKind::BitLong)?;
    let row = point_row_list(false);
    let rows = read_rows(streams, &row, field_count_of(&ns))?;
    Ok((field_double_of(&px), pairs_from_rows(&rows)))
}

/// Read the boundary object handles of one path (see
/// [`spec_boundary_handles`]).
fn read_boundary_handles(streams: &mut StreamSet) -> (r: Result<Vec<u64>, DxfError>)
    requires
        streams_of(*old(streams), old(streams).object_reader.data(), old(streams).object_reader.spec_version()),
    ensures
        streams_of(*final(streams), old(streams).object_reader.data(), old(streams).object_reader.spec_version()),
        final(streams).current_handle == old(streams).current_handle,
        match spec_boundary_handles(model_of(*old(streams)), old(streams).object_reader.data().len()) {
            Err(e) => r matches Err(e2) && e2 == e,
            Ok((hs, m)) => r matches Ok(x) && x@ == hs && model_of(*final(streams)) == m,
        },
{
    let n = streams.object_reader.read_bit_long_or_zero();
    let ghost m1 = model_of(*streams);
    let hs = read_handle_list(&mut streams.handles_reader, 0, n as usize)?;
    proof {
        assert(spec_handle_list(m1.handles, m1.handles_pos, streams.object_reader.data().len(), 0,
            ((n as i32) as usize) as nat) matches Ok((l, ch, hp))
            && model_of(*streams) == (StreamsModel { handles: ch, handles_pos: hp, ..m1 }));
    }
    Ok(hs)
}

/// Read the boundary object handles of `n` paths (see
/// [`spec_all_boundary_handles`]).
fn read_all_boundary_handles(streams: &mut StreamSet, n: usize) -> (r: Result<Vec<Vec<u64>>, DxfError>)
    requires
        streams_of(*old(streams), old(streams).object_reader.data(), old(streams).object_reader.spec_version()),
    ensures
        streams_of(*final(streams), old(streams).object_reader.data(), old(streams).object_reader.spec_version()),
        final(streams).current_handle == old(streams).current_handle,
        match spec_all_boundary_handles(model_of(*old(streams)), old(streams).object_reader.data().len(), n as nat) {
            Err(e) => r matches Err(e2) && e2 == e,
            Ok((bh, m)) => r matches Ok(x) && x@.map_values(|h: Vec<u64>| h@) == bh && model_of(*final(streams)) == m,
        },
{
    let ghost data = streams.object_reader.data();
    let ghost len = data.len();
    let ghost v = streams.object_reader.spec_version();
    let ghost total = spec_all_boundary_handles(model_of(*streams), len, n as nat);
    let mut out: Vec<Vec<u64>> = Vec::new();
    let mut i: usize = 0;
    proof {
        if let Ok((bh, m)) = total {
            assert(out@.map_values(|h: Vec<u64>| h@) + bh =~= bh);
        }
    }
    while i < n
        invariant
            i <= n,
            len == data.len(),
            data == old(streams).object_reader.data(),
            v == old(streams).object_reader.spec_version(),
            streams.current_handle == old(streams).current_handle,
            streams_of(*streams, data, v),
            total == spec_all_boundary_handles(model_of(*old(streams)), len, n as nat),
            total == (match spec_all_boundary_handles(model_of(*streams), len, (n - i) as nat) {
                Err(e) => Err(e),
                Ok((bh, m)) => Ok((out@.map_values(|h: Vec<u64>| h@) + bh, m)),
            }),
        decreases n - i,
    {
        let ghost rest0 = spec_all_boundary_handles(model_of(*streams), len, (n - i) as nat);
        let hs = match read_boundary_handles(streams) {
            Ok(hs) => hs,
            Err(e) => {
                proof { assert(rest0 matches Err(e2) && e2 == e); }
                return Err(e);
            },
        };
        proof {
            let rest1 = spec_all_boundary_handles(model_of(*streams), len, (n - i - 1) as nat);
            if let Ok((bh, m)) = rest1 {
                assert(out@.map_values(|h: Vec<u64>| h@) + (seq![hs@] + bh)
                    =~= out@.push(hs).map_values(|h: Vec<u64>| h@) + bh);
            }
        }
        out.push(hs);
        i = i + 1;
    }
    proof {
        if let Ok((bh, m)) = total {
            assert(out@.map_values(|h: Vec<u64>| h@) + Seq::<Seq<u64>>::empty()
                =~= out@.map_values(|h: Vec<u64>| h@));
        }
    }
    Ok(out)
}

/// The style with the code `n` (see [`hatch_style_of`]).
fn hatch_style_from(n: i16) -> (r: HatchStyleType)
    ensures
        r == hatch_style_of(n),
{
    if n == 1 { HatchStyleType::Outer } else if n == 2 { HatchStyleType::Ignore } else { HatchStyleType::Normal }
}

/// The pattern type with the code `n` (see [`pattern_type_of`]).
fn pattern_type_from(n: i16) -> (r: HatchPatternType)
    ensures
        r == pattern_type_of(n),
{
    if n == 0 {
        HatchPatternType::UserDefined
    } else if n == 2 {
        HatchPatternType::Custom
    } else {
        HatchPatternType::Predefined
    }
}

impl DwgObjectReader {
    /// Read the object data of a hatch whose common properties are
    /// `common` (see [`spec_hatch_body`]).
    #[verifier::spinoff_prover]
    fn read_hatch_body(&mut self, streams: &mut StreamSet, common: EntityCommon)
        -> (r: Result<(HatchEntity, Vec<Vec<u64>>), DxfError>)
        requires
            old(self).inv(),
            streams_of(*old(streams), old(self).data(), old(self).spec_version()),
        ensures
            *final(self) == *old(self),
            streams_of(*final(streams), old(self).data(), old(self).spec_version()),
            final(streams).current_handle == old(streams).current_handle,
            match spec_hatch_body(model_of(*old(streams)), old(self).data().len(), old(self).spec_version(),
                old(streams).current_handle, common) {
                Err(e) => r matches Err(e2) && e2 == e,
                Ok(((h, bh), m)) => r matches Ok((x, b)) && x@ == h && b@.map_values(|v: Vec<u64>| v@) == bh
                    && model_of(*final(streams)) == m,
            },
    {
        proof { reveal(spec_hatch_body); }
        let gradient = read_gradient(streams)?;
        let kinds = vec![FieldKind::BitDouble, FieldKind::Point3, FieldKind::Text, FieldKind::Bit, FieldKind::Bit,
            FieldKind::BitLong];
        proof { assert(kinds@ =~= hatch_head_layout()); }
        let hs = read_some(streams, &kinds)?;
        let n = field_count_of(&hs[5]);
        let is_solid = field_bool_of(&hs[3]);
        let paths = read_paths(streams, n)?;
        let (style, ptype, pattern_angle, pattern_scale, is_double, pattern_lines) = read_pattern(streams, is_solid)?;
        let (pixel_size, seed_points) = read_seeds(streams)?;
        let boundary = read_all_boundary_handles(streams, n)?;
        let hatch = HatchEntity {
            common,
            elevation: field_double_of(&hs[0]),
            normal: field_point_of(&hs[1]),
            pattern_name: field_text_of(&hs[2]),
            pattern_lines,
            is_solid,
            is_associative: field_bool_of(&hs[4]),
            pattern_type: pattern_type_from(ptype),
            pattern_angle,
            pattern_scale,
            is_double,
            style: hatch_style_from(style),
            paths,
            seed_points,
            pixel_size,
            gradient,
        };
        Ok((hatch, boundary))
    }

    /// Read a hatch (see [`spec_hatch`]); the template keeps the boundary
    /// object handles of each path.
    pub fn read_hatch(&mut self, streams: &mut StreamSet)
        -> (r: Result<CadTemplate<XDataValue, HatchEntity>, DxfError>)
        requires
            old(self).inv(),
            streams_of(*old(streams), old(self).data(), old(self).spec_version()),
        ensures
            *final(self) == *old(self),
            streams_of(*final(streams), old(self).data(), old(self).spec_version()),
            final(streams).current_handle == old(streams).current_handle,
            match spec_hatch(model_of(*old(streams)), old(self).data(), old(self).spec_version(),
                old(self).initial_pos(), old(streams).current_handle) {
                Err(e) => r matches Err(e2) && e2 == e,
                Ok(((cm, ent, h, bh), m)) => r matches Ok(CadTemplate::Hatch { common, entity_data, hatch_data,
                    entity })
                    && common_model(common) == cm && entity_data == ent && entity@ == h
                    && hatch_data.boundary_handles@.map_values(|v: Vec<u64>| v@) == bh
                    && model_of(*final(streams)) == m,
            },
    {
        let (common, entity_data, ec) = self.read_common_entity_data(streams)?;
        let (entity, boundary_handles) = self.read_hatch_body(streams, ec)?;
        Ok(CadTemplate::Hatch { common, entity_data, hatch_data: CadHatchTemplateData { boundary_handles }, entity })
    }
}


/// What [`DwgObjectReader::read_hatch`] gives and leaves: its result `r` and
/// its streams, from `st0` to `st1`, for the reader `before`.
pub open spec fn read_hatch_outcome(before: DwgObjectReader, st0: StreamSet, st1: StreamSet,
    r: Result<CadTemplate<XDataValue, HatchEntity>, DxfError>) -> bool {
    &&& streams_of(st1, before.data(), before.spec_version())
    &&& st1.current_handle == st0.current_handle
    &&& match spec_hatch(model_of(st0), before.data(), before.spec_version(),
            before.initial_pos(), st0.current_handle) {
            Err(e) => r matches Err(e2) && e2 == e,
            Ok(((cm, ent, h, bh), m)) => r matches Ok(CadTemplate::Hatch { common, entity_data, hatch_data,
                entity })
                && common_model(common) == cm && entity_data == ent && entity@ == h
                && hatch_data.boundary_handles@.map_values(|v: Vec<u64>| v@) == bh
                && model_of(st1) == m,
        }
}

} // verus!
