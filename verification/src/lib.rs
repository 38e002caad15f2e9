//! kty: the decision logic of an SSH front end for Kubernetes, verified.
pub mod text;
pub mod number;
pub mod events;
pub mod listing;
pub mod file;
pub mod age;
pub mod order;
pub mod table;
pub mod tunnel;
pub mod pod;
pub mod container;
pub mod node;
pub mod proxy;
pub mod serve;
pub mod status;
pub mod identity;
pub mod auth;
pub mod requests;
pub mod cli;
pub mod wipe;
pub mod install;
pub mod graph;
pub mod refs;
pub mod egress;
pub mod openid;
pub mod dashboard;
pub mod sftp;
pub mod token;
pub mod io;
pub mod store;
