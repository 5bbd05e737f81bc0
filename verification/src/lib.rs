//! Decision logic of a low-latency remote desktop client.
pub mod addr;
pub mod audio;
pub mod capture;
pub mod capture_frame;
pub mod capture_hook;
pub mod capture_laws;
pub mod cards;
pub mod channel;
pub mod codecs;
pub mod connection;
pub mod cursors;
pub mod discovery;
pub mod dmabuf;
pub mod frame_laws;
pub mod frames;
pub mod gl_video;
pub mod home;
pub mod input;
pub mod input_laws;
pub mod key_laws;
pub mod keys;
pub mod label_laws;
pub mod labels;
pub mod pacing;
pub mod pipeline;
pub mod playout;
pub mod playout_laws;
pub mod pointer_laws;
pub mod presenters;
pub mod profile;
pub mod profile_laws;
pub mod protocol;
pub mod server_laws;
pub mod servers;
pub mod session;
pub mod session_laws;
pub mod settings;
pub mod text;
pub mod text_laws;
pub mod time;
pub mod updates;
pub mod video_laws;
pub mod video_texture;
pub mod videotoolbox;
pub mod wgpu_video;
pub mod window;
