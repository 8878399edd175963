//! Companion of a browser extension that sends selected domains through one
//! isolated OpenVPN tunnel: what it decides and computes. Files, sockets and
//! processes are left to the program around it.
pub mod addressing_laws;
pub mod children;
pub mod children_laws;
pub mod cli;
pub mod cli_laws;
pub mod command;
pub mod command_laws;
pub mod config;
pub mod config_laws;
pub mod dns;
pub mod dns_laws;
pub mod helper;
pub mod helper_laws;
pub mod install;
pub mod install_laws;
pub mod installation_laws;
pub mod ipv4;
pub mod json;
pub mod messaging_laws;
pub mod netns;
pub mod nm;
pub mod number;
pub mod relay;
pub mod route_laws;
pub mod routes;
pub mod socks5;
pub mod socks5_laws;
pub mod status;
pub mod status_laws;
pub mod subnet;
pub mod supervision_laws;
pub mod supervisor;
pub mod supervisor_laws;
pub mod text;
pub mod text_laws;
pub mod toml_file;
pub mod tun;
pub mod tun_laws;
pub mod tunnel_laws;
pub mod view_laws;
