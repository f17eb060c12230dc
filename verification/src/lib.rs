//! Verified reading of the DWG binary drawing format: bit-level stream
//! decoding, section readers, handle references and the byte-interleaving
//! scheme used by R2007 files.

pub mod error;
pub mod version;
pub mod reference_type;
pub mod notification;
pub mod text;
pub mod encoding;
pub mod sentinels;
pub mod section_io;
pub mod reed_solomon;
pub mod bit_model;
pub mod stream_reader;
pub mod stream_values;
pub mod color;
pub mod app_info_reader;
pub mod handle_reader;
pub mod summary_info_reader;
pub mod preview_reader;
pub mod classes_reader;
pub mod dwg_reader;
pub mod templates;
pub mod header_layout;
pub mod header_reader;
pub mod header_variables;
pub mod merged_reader;
pub mod stream_set;
pub mod object_reader;
pub mod object_common;
pub mod object_records;
pub mod table_entries;
pub mod text_entities;
pub mod insert_entities;
pub mod polyline_entities;
pub mod geometry_entities;
pub mod dimension_entities;
pub mod annotation_entities;
pub mod hatch_entity;
pub mod modeler_geometry;
pub mod frame_entities;
pub mod object_dispatch;
