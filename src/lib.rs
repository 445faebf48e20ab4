//! An authenticated gateway over a container engine and a service manager.
//!
//! The library holds the decisions of the gateway: the bearer-token check, the
//! normalization of unit names, the backend calls that each REST operation makes
//! and the HTTP status that a failure of each call maps to, and the selection of
//! service records from a unit listing. Performing the backend calls is left to
//! the caller.
mod status;
mod auth;
mod plan;
mod containers;
mod services;
mod gateway;

pub use status::Status;
pub use auth::{validate_bearer_token, AuthDecision, RejectReason};
pub use plan::Call;
pub use containers::{
    get_container_plan, list_containers_plan, update_container_plan, ContainerAction,
    UpdateContainerRequest,
};
pub use services::{
    filter_services, find_service, get_service_plan, list_services_plan, normalize_service_name,
    update_service_plan, ServiceAction, ServiceCommand, ServiceInfo, ServicePlan,
    UpdateServiceRequest,
};
pub use gateway::{gate, health, root, Resource};
