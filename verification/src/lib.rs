//! Verified core of the Satisfactory map tracker.
pub mod reader;
pub mod save_header;
pub mod strings;
pub mod storage;
pub mod localization;
pub mod glossary;
pub mod status;
pub mod world_data;
pub mod save_parser;
pub mod map;
pub mod foundation;
pub mod annotations;
pub mod text_trim;
pub mod drawings;
pub mod map_view;
pub mod profiles;
pub mod timing;
