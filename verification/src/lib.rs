//! The verified core of a desktop media player.
pub mod arrival_laws;
pub mod audio_batcher;
pub mod audio_controller;
pub mod audio_device;
pub mod bitmap;
pub mod bmp;
pub mod calendar;
pub mod clip_range;
pub mod clock;
pub mod command_laws;
pub mod commands;
pub mod crash_report;
pub mod csv;
pub mod decimal;
pub mod decode_math;
pub mod decode_receive;
pub mod decode_run;
pub mod decode_thread;
pub mod drop_stats;
pub mod ending_laws;
pub mod events;
pub mod fields;
pub mod generations;
pub mod input_dispatch;
pub mod interrupt;
pub mod lexical;
pub mod license;
pub mod license_api;
pub mod logging;
pub mod media;
pub mod media_ext;
pub mod natural;
pub mod operation_laws;
pub mod overlay;
pub mod overlay_place;
pub mod panels;
pub mod play_queue;
pub mod queue_laws;
pub mod recent;
pub mod review_markers;
pub mod review_queue;
pub mod session;
pub mod session_events;
pub mod session_laws;
pub mod session_model;
pub mod session_playback;
pub mod session_tick;
pub mod settings;
pub mod shell;
pub mod stable;
pub mod state;
pub mod swap_chain;
pub mod text;
pub mod time;
pub mod timeline_ui;
pub mod transport_laws;
pub mod video_plan;
pub mod video_queue;
pub mod viewport;
pub mod window;
pub mod window_size;
pub mod winpath;
pub mod worker;
