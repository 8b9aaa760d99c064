//! Quality checks for a folder of digitized photo scans: file names are parsed
//! into records, embedded image tags are summarised, files are counted by media
//! and scan type, and everything is compared with what the operator asked for.

pub mod outcome;
pub mod text;
pub mod scan_type;
pub mod file_extension_type;
pub mod photo_media_data;
pub mod media_types;
pub mod file_names;
pub mod media_file;
pub mod error;
pub mod photo_group_options;
pub mod media_groups;
pub mod media_folder;
pub mod final_check_request;
pub mod final_check;
pub mod name_grammar;
pub mod messages;
pub mod send_text;
pub mod jobs;
