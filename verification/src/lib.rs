pub mod bind_mount;
pub mod cli;
pub mod clock;
pub mod command;
pub mod config;
pub mod error;
pub mod finder;
pub mod formatter;
pub mod guest;
pub mod home;
pub mod ids;
pub mod image_index;
pub mod images;
pub mod info;
pub mod init;
pub mod layout;
pub mod litebox;
pub mod manager;
pub mod metrics;
pub mod options;
pub mod perms;
pub mod pipeline;
mod probe;
pub mod pull;
pub mod registry;
pub mod rootfs;
pub mod round_trip;
pub mod run;
pub mod runtime;
pub mod shim;
pub mod state;
pub mod text;
pub mod vmm;
pub mod volumes;
