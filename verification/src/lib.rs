//! The logic of a Kubernetes operator for Kafka clusters.

pub mod binary64;
pub mod context;
pub mod controller;
pub mod crd;
pub mod gen_crds;
pub mod health;
pub mod leader_election;
pub mod lease_laws;
pub mod outside;
pub mod run;
pub mod telemetry;
pub mod text;
pub mod units;
