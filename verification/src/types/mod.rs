pub mod format_duration;
pub mod metadata_queue;
pub mod playlist_parser;
pub mod playground;
